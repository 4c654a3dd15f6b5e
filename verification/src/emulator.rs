//! A controller emulator behind the serial-port interface: commands written
//! to it are parsed and answered the way a small device would answer them.

use std::collections::VecDeque;

use vstd::prelude::*;

use crate::command::direct::{DirectCommandView, FtSwarmDirectCommand};
use crate::command::rpc::{FtSwarmRPCCommand, RpcCommandView, RpcFunction};
use crate::command::{spec_deserialize_command, CommandView, FtSwarmCommand};
use crate::serial::{SerialError, SwarmSerialPort};
use crate::Deserialized;

verus! {

/// A port whose other end is an emulated controller; the queue holds the
/// lines the emulator has produced and the host has not read yet.
pub struct EmulatedSerialPort(VecDeque<String>);

impl View for EmulatedSerialPort {
    type V = Seq<Seq<char>>;

    closed spec fn view(&self) -> Seq<Seq<char>> {
        Seq::new(self.0@.len(), |i: int| self.0@[i]@)
    }
}

/// The lines the emulator answers to a direct command.
pub open spec fn spec_direct_reply(d: DirectCommandView) -> Seq<Seq<char>> {
    match d {
        DirectCommandView::Help => seq!["Help"@],
        DirectCommandView::Setup => seq!["Setup"@],
        DirectCommandView::Halt => seq![],
        DirectCommandView::Whoami => seq!["ftSwarm100/kelda"@],
        DirectCommandView::Uptime => seq!["uptime: 31.000 s"@],
        DirectCommandView::StartCli => seq![],
        DirectCommandView::Custom(_) => seq![],
    }
}

/// The RPC functions the emulator acknowledges with `Ok`; the others are
/// answered with a zero reading.
pub open spec fn spec_rpc_acknowledged(f: RpcFunction) -> bool {
    ||| f == RpcFunction::Show
    ||| f == RpcFunction::TriggerUserEvent
    ||| f == RpcFunction::SetMicroStepMode
    ||| f == RpcFunction::SetSensorType
    ||| f == RpcFunction::OnTrigger
    ||| f == RpcFunction::SetActorType
    ||| f == RpcFunction::SetSpeed
    ||| f == RpcFunction::SetMotionType
    ||| f == RpcFunction::SetPosition
    ||| f == RpcFunction::SetOffset
    ||| f == RpcFunction::SetColor
    ||| f == RpcFunction::SetBrightness
    ||| f == RpcFunction::SetRegister
}

/// The lines the emulator answers to an RPC command: nothing for a
/// subscription, `R: Ok` for a setter-like call, `R: 0` for a reading.
pub open spec fn spec_rpc_reply(c: RpcCommandView) -> Seq<Seq<char>> {
    if c.function == RpcFunction::Subscribe {
        seq![]
    } else if spec_rpc_acknowledged(c.function) {
        seq!["R: Ok"@]
    } else {
        seq!["R: 0"@]
    }
}

/// The lines the emulator answers to any command.
pub open spec fn spec_command_reply(c: CommandView) -> Seq<Seq<char>> {
    match c {
        CommandView::RPC(cmd) => spec_rpc_reply(cmd),
        CommandView::Direct(cmd) => spec_direct_reply(cmd),
    }
}

fn rpc_acknowledged(f: RpcFunction) -> (r: bool)
    ensures
        r == spec_rpc_acknowledged(f),
{
    f == RpcFunction::Show || f == RpcFunction::TriggerUserEvent || f
        == RpcFunction::SetMicroStepMode || f == RpcFunction::SetSensorType || f
        == RpcFunction::OnTrigger || f == RpcFunction::SetActorType || f == RpcFunction::SetSpeed
        || f == RpcFunction::SetMotionType || f == RpcFunction::SetPosition || f
        == RpcFunction::SetOffset || f == RpcFunction::SetColor || f == RpcFunction::SetBrightness
        || f == RpcFunction::SetRegister
}

impl EmulatedSerialPort {
    pub fn new() -> (r: EmulatedSerialPort)
        ensures
            r@.len() == 0,
    {
        let r = EmulatedSerialPort(VecDeque::new());
        proof {
            assert(r@ =~= Seq::<Seq<char>>::empty());
        }
        r
    }

    fn push_line(&mut self, line: &str)
        ensures
            final(self)@ == old(self)@.push(line@),
    {
        self.0.push_back(line.to_owned());
        proof {
            assert(final(self)@ =~= old(self)@.push(line@));
        }
    }

    /// Answers one direct command.
    pub fn handle_direct_command(&mut self, command: FtSwarmDirectCommand)
        ensures
            final(self)@ == old(self)@ + spec_direct_reply(command@),
    {
        let ghost pre = self@;
        match command {
            FtSwarmDirectCommand::Help => {
                self.push_line("Help");
            },
            FtSwarmDirectCommand::Setup => {
                self.push_line("Setup");
            },
            FtSwarmDirectCommand::Halt => {},
            FtSwarmDirectCommand::Whoami => {
                self.push_line("ftSwarm100/kelda");
            },
            FtSwarmDirectCommand::Uptime => {
                self.push_line("uptime: 31.000 s");
            },
            FtSwarmDirectCommand::StartCli => {},
            FtSwarmDirectCommand::Custom(_) => {},
        }
        proof {
            assert(final(self)@ =~= pre + spec_direct_reply(command@));
        }
    }

    /// Answers one RPC command.
    pub fn handle_rpc_command(&mut self, command: FtSwarmRPCCommand)
        ensures
            final(self)@ == old(self)@ + spec_rpc_reply(command@),
    {
        let ghost pre = self@;
        if command.function == RpcFunction::Subscribe {
        } else if rpc_acknowledged(command.function) {
            self.push_line("R: Ok");
        } else {
            self.push_line("R: 0");
        }
        proof {
            assert(final(self)@ =~= pre + spec_rpc_reply(command@));
        }
    }

    /// Answers one command of either kind.
    pub fn handle_command(&mut self, command: FtSwarmCommand)
        ensures
            final(self)@ == old(self)@ + spec_command_reply(command@),
    {
        match command {
            FtSwarmCommand::RPC(command) => self.handle_rpc_command(command),
            FtSwarmCommand::Direct(command) => self.handle_direct_command(command),
        }
    }
}

impl SwarmSerialPort for EmulatedSerialPort {
    fn available(&self) -> Result<bool, SerialError> {
        Ok(self.0.len() > 0)
    }

    fn read_line(&mut self) -> Result<String, SerialError> {
        match self.0.pop_front() {
            Some(line) => Ok(line),
            None => Err(SerialError::Timeout),
        }
    }

    fn write_line(&mut self, line: String) -> Result<(), SerialError> {
        match FtSwarmCommand::deserialize(&line) {
            Ok(command) => {
                self.handle_command(command);
                Ok(())
            },
            Err(_) => Err(SerialError::EncodingError),
        }
    }

    fn block_until(&mut self, line: String) -> Result<(), SerialError> {
        Ok(())
    }
}

} // verus!
