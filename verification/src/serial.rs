//! The transport boundary: a line-oriented serial port as the connection
//! core sees it, and a fixed-response port for driving a connection without
//! hardware.

use vstd::prelude::*;

verus! {

#[derive(Debug)]
pub enum SerialError {
    IoError,
    Timeout,
    ManualDisconnect,
    EncodingError,
    Other(String),
}

/// A line-buffered transport: one read returns one complete line with the
/// line terminators stripped, one write sends one line. `block_until` is the
/// one-time startup handshake that discards the device banner.
pub trait SwarmSerialPort: Send {
    fn available(&self) -> Result<bool, SerialError>;

    fn read_line(&mut self) -> Result<String, SerialError>;

    fn write_line(&mut self, line: String) -> Result<(), SerialError>;

    fn block_until(&mut self, line: String) -> Result<(), SerialError>;
}

/// A port that replays a fixed list of responses: lines handed to
/// `add_response` come back out of `read_line` in the same order, once the
/// startup handshake has run; writes are discarded.
pub struct FixedSerialPort {
    responses: Vec<String>,
    initialized: bool,
}

/// Mathematical model of the fixed port: the pending responses in the order
/// they will be read, and whether the handshake has run.
pub struct FixedSerialPortView {
    pub responses: Seq<Seq<char>>,
    pub initialized: bool,
}

impl View for FixedSerialPort {
    type V = FixedSerialPortView;

    closed spec fn view(&self) -> FixedSerialPortView {
        FixedSerialPortView {
            responses: Seq::new(self.responses@.len(), |i: int| self.responses@[i]@),
            initialized: self.initialized,
        }
    }
}

impl FixedSerialPort {
    pub fn new() -> (r: FixedSerialPort)
        ensures
            r@.responses.len() == 0,
            !r@.initialized,
    {
        FixedSerialPort { responses: Vec::new(), initialized: false }
    }

    /// Queues one more line for `read_line` to return, after those already
    /// queued.
    pub fn add_response(&mut self, response: &str)
        ensures
            final(self)@.responses == old(self)@.responses.push(response@),
            final(self)@.initialized == old(self)@.initialized,
    {
        self.responses.push(response.to_owned());
        proof {
            assert(final(self)@.responses =~= old(self)@.responses.push(response@));
        }
    }

    fn pop_response(&mut self) -> (r: Option<String>)
        ensures
            match r {
                Some(line) => old(self)@.responses.len() > 0 && line@ == old(self)@.responses[0]
                    && final(self)@.responses == old(self)@.responses.skip(1),
                None => old(self)@.responses.len() == 0 && final(self)@ == old(self)@,
            },
            final(self)@.initialized == old(self)@.initialized,
    {
        if self.responses.len() == 0 {
            proof {
                assert(final(self)@.responses =~= old(self)@.responses);
            }
            return None;
        }
        let line = self.responses.remove(0);
        proof {
            assert(final(self)@.responses =~= old(self)@.responses.skip(1));
        }
        Some(line)
    }
}

impl SwarmSerialPort for FixedSerialPort {
    fn available(&self) -> Result<bool, SerialError> {
        if self.initialized {
            Ok(self.responses.len() > 0)
        } else {
            Ok(false)
        }
    }

    fn read_line(&mut self) -> Result<String, SerialError> {
        match self.pop_response() {
            Some(line) => Ok(line),
            None => Err(SerialError::Timeout),
        }
    }

    fn write_line(&mut self, line: String) -> Result<(), SerialError> {
        Ok(())
    }

    fn block_until(&mut self, line: String) -> Result<(), SerialError> {
        self.initialized = true;
        Ok(())
    }
}

} // verus!
