//! The connection core: the shared state a connection keeps behind its lock
//! (subscription registry, incoming-message queue and waiters, outbound
//! queue), the decisions of the I/O pump, and the request/response
//! correlation steps of a transaction.
//!
//! The wire protocol carries no correlation id, so an incoming response is
//! broadcast to every pending waiter and each waiter keeps the first message
//! that arrives after it registered. Responses therefore match requests by
//! arrival order relative to registration, and concurrent transactions on
//! one connection are only guaranteed correct when serialized: issue one,
//! await its response, then issue the next.

use vstd::prelude::*;

use crate::command::rpc::RpcFunction;
use crate::command::{spec_serialize_command, CommandView, FtSwarmCommand};
use crate::direct::{spec_parse_uptime, spec_parse_whoami, WhoamiResponse, WhoamiView};
use crate::message_parser::rpc::{spec_decode, RPCReturnParam, RPCReturnParamView};
use crate::message_parser::subscription::{spec_parse_subscription, Subscription};
use crate::message_parser::{spec_classify, S2RMessage, S2RMessageView};
use crate::message_queue::{spec_push, spec_register, spec_take_waiter, spec_drop_waiter,
    ReturnQueue, ReturnQueueView, WaiterKind, WriteQueue};
use crate::serial::{SerialError, SwarmSerialPort};
use crate::text::{str_eq, strip_crlf, strip_crlf_spec};

verus! {

/// Mathematical model of the connection state.
pub struct InnerFtSwarmView {
    /// The subscription registry: port name and handler token, first
    /// registration of each name first.
    pub objects: Seq<(Seq<char>, usize)>,
    pub message_queue: ReturnQueueView,
    pub write_queue: Seq<CommandView>,
}

/// The shared connection state: the subscription registry, the incoming
/// message queue with its pending waiters, and the outbound command queue.
pub struct InnerFtSwarm {
    objects: Vec<(String, usize)>,
    message_queue: ReturnQueue,
    write_queue: WriteQueue,
}

impl View for InnerFtSwarm {
    type V = InnerFtSwarmView;

    closed spec fn view(&self) -> InnerFtSwarmView {
        InnerFtSwarmView {
            objects: Seq::new(self.objects@.len(), |i: int| (self.objects@[i].0@, self.objects@[i].1)),
            message_queue: self.message_queue@,
            write_queue: self.write_queue@,
        }
    }
}

/// Index of the first registry entry for `name`, or -1.
pub open spec fn find_object_spec(os: Seq<(Seq<char>, usize)>, name: Seq<char>) -> int
    decreases os.len(),
{
    if os.len() == 0 {
        -1
    } else if os[0].0 == name {
        0
    } else {
        let r = find_object_spec(os.skip(1), name);
        if r < 0 {
            -1
        } else {
            r + 1
        }
    }
}

/// The handler registered for `name`, if any.
pub open spec fn spec_lookup_handler(os: Seq<(Seq<char>, usize)>, name: Seq<char>) -> Option<
    usize,
> {
    let i = find_object_spec(os, name);
    if i < 0 {
        None
    } else {
        Some(os[i].1)
    }
}

/// Registration of a handler: the last writer for a name wins.
pub open spec fn spec_push_cache(os: Seq<(Seq<char>, usize)>, name: Seq<char>, handler: usize) -> Seq<
    (Seq<char>, usize),
> {
    let i = find_object_spec(os, name);
    if i < 0 {
        os.push((name, handler))
    } else {
        os.update(i, (name, handler))
    }
}

proof fn lemma_find_object(os: Seq<(Seq<char>, usize)>, name: Seq<char>)
    ensures
        ({
            let r = find_object_spec(os, name);
            &&& r == -1 || (0 <= r < os.len())
            &&& r == -1 ==> forall|j: int| 0 <= j < os.len() ==> os[j].0 != name
            &&& r >= 0 ==> os[r].0 == name && (forall|j: int| 0 <= j < r ==> os[j].0 != name)
        }),
    decreases os.len(),
{
    if os.len() > 0 && os[0].0 != name {
        lemma_find_object(os.skip(1), name);
        assert forall|j: int| 1 <= j < os.len() implies os[j] == os.skip(1)[j - 1] by {}
    }
}

proof fn lemma_find_object_unique(os: Seq<(Seq<char>, usize)>, name: Seq<char>, i: int)
    requires
        0 <= i < os.len(),
        os[i].0 == name,
        forall|j: int| 0 <= j < i ==> os[j].0 != name,
    ensures
        find_object_spec(os, name) == i,
    decreases os.len(),
{
    if i > 0 {
        assert forall|j: int| 1 <= j < os.len() implies os[j] == os.skip(1)[j - 1] by {}
        lemma_find_object_unique(os.skip(1), name, i - 1);
    }
}

/// What the pump does with one incoming line.
#[derive(Debug)]
pub enum DispatchAction {
    /// A subscription update for a registered handler: the handler's token
    /// and the decoded value to hand it.
    Handler { handler: usize, value: RPCReturnParam },
    /// The message was queued for the pending waiters and takers.
    Queued,
    /// A diagnostic log line, surfaced for observability only.
    LogLine(String),
    /// A subscription with no registered handler or an unparsable one;
    /// silently dropped.
    Dropped,
}

/// Mathematical model of a dispatch action.
pub enum DispatchActionView {
    Handler { handler: usize, value: RPCReturnParamView },
    Queued,
    LogLine(Seq<char>),
    Dropped,
}

impl View for DispatchAction {
    type V = DispatchActionView;

    open spec fn view(&self) -> DispatchActionView {
        match self {
            DispatchAction::Handler { handler, value } => DispatchActionView::Handler {
                handler: *handler,
                value: value@,
            },
            DispatchAction::Queued => DispatchActionView::Queued,
            DispatchAction::LogLine(s) => DispatchActionView::LogLine(s@),
            DispatchAction::Dropped => DispatchActionView::Dropped,
        }
    }
}

/// The state after one incoming line: a subscription or log line leaves the
/// queues alone; every other message is queued and broadcast to the waiters.
pub open spec fn spec_handle_line(v: InnerFtSwarmView, line: Seq<char>) -> InnerFtSwarmView {
    let m = spec_classify(strip_crlf_spec(line));
    match m {
        S2RMessageView::Subscription(_) => v,
        _ => InnerFtSwarmView {
            objects: v.objects,
            message_queue: spec_push(v.message_queue, m),
            write_queue: v.write_queue,
        },
    }
}

/// The action one incoming line provokes: a subscription update goes to the
/// handler registered for its port, if any; a log line is surfaced; every
/// other message is queued.
pub open spec fn spec_line_action(v: InnerFtSwarmView, line: Seq<char>) -> DispatchActionView {
    let m = spec_classify(strip_crlf_spec(line));
    match m {
        S2RMessageView::Subscription(payload) => match spec_parse_subscription(payload) {
            Ok(sub) => match spec_lookup_handler(v.objects, sub.port_name) {
                Some(h) => DispatchActionView::Handler { handler: h, value: sub.value },
                None => DispatchActionView::Dropped,
            },
            Err(_) => DispatchActionView::Dropped,
        },
        S2RMessageView::Log(text) => DispatchActionView::LogLine(text),
        _ => DispatchActionView::Queued,
    }
}

/// True for the distinguished fire-and-forget command: a subscription
/// registration, to which the device sends no immediate reply.
pub open spec fn spec_is_subscribe(c: CommandView) -> bool {
    c matches CommandView::RPC(r) && r.function == RpcFunction::Subscribe
}

/// The outcome a waiter's delivered message resolves to: a response is
/// decoded, a device error is surfaced as its text, and any other message
/// kind is a protocol violation.
pub open spec fn spec_resolve(m: S2RMessageView) -> Result<RPCReturnParamView, Seq<char>> {
    match m {
        S2RMessageView::RPCResponse(data) => Ok(spec_decode(data)),
        S2RMessageView::Error(data) => Err(data),
        _ => Err("Received non-RPCResponse message"@),
    }
}

/// The `whoami` result a transaction outcome denotes: only an opaque string
/// payload parses as a whoami response.
pub open spec fn spec_whoami_of(p: RPCReturnParamView) -> Result<WhoamiView, Seq<char>> {
    match p {
        RPCReturnParamView::String(s) => spec_parse_whoami(s),
        _ => Err("Received non-string response"@),
    }
}

/// The uptime (whole seconds) a transaction outcome denotes.
pub open spec fn spec_uptime_of(p: RPCReturnParamView) -> Result<int, Seq<char>> {
    match p {
        RPCReturnParamView::String(s) => spec_parse_uptime(s),
        _ => Err("Received non-string response"@),
    }
}

impl InnerFtSwarm {
    pub fn new() -> (r: InnerFtSwarm)
        ensures
            r@.objects.len() == 0,
            r@.message_queue.queue.len() == 0,
            r@.message_queue.waiters.len() == 0,
            r@.write_queue.len() == 0,
    {
        let r = InnerFtSwarm {
            objects: Vec::new(),
            message_queue: ReturnQueue::new(),
            write_queue: WriteQueue::new(),
        };
        proof {
            assert(r@.objects =~= Seq::<(Seq<char>, usize)>::empty());
        }
        r
    }

    /// Registers a subscription handler token for a port name; a later
    /// registration for the same name replaces the earlier one.
    #[verifier::loop_isolation(false)]
    pub fn push_cache(&mut self, handler: usize, name: &str)
        ensures
            final(self)@.objects == spec_push_cache(old(self)@.objects, name@, handler),
            final(self)@.message_queue == old(self)@.message_queue,
            final(self)@.write_queue == old(self)@.write_queue,
    {
        proof {
            lemma_find_object(old(self)@.objects, name@);
        }
        let n = self.objects.len();
        let mut i: usize = 0;
        while i < n
            invariant
                n == self.objects.len(),
                i <= n,
                self == old(self),
                forall|j: int| 0 <= j < i ==> old(self)@.objects[j].0 != name@,
            decreases n - i,
        {
            if str_eq(self.objects[i].0.as_str(), name) {
                proof {
                    lemma_find_object_unique(old(self)@.objects, name@, i as int);
                }
                self.objects.set(i, (name.to_owned(), handler));
                proof {
                    assert(final(self)@.objects =~= old(self)@.objects.update(
                        i as int,
                        (name@, handler),
                    ));
                }
                return ;
            }
            proof {
                assert(old(self)@.objects[i as int].0 == self.objects@[i as int].0@);
            }
            i = i + 1;
        }
        self.objects.push((name.to_owned(), handler));
        proof {
            assert(final(self)@.objects =~= old(self)@.objects.push((name@, handler)));
        }
    }

    /// Appends a command to the outbound queue; it returns immediately and
    /// the pump writes the line later, in issuance order.
    pub fn send_command(&mut self, command: FtSwarmCommand)
        ensures
            final(self)@.write_queue == old(self)@.write_queue.push(command@),
            final(self)@.objects == old(self)@.objects,
            final(self)@.message_queue == old(self)@.message_queue,
    {
        self.write_queue.push(command);
    }

    /// Takes one raw line in: strips line terminators, classifies it, and
    /// either routes a subscription to its handler, surfaces a log line, or
    /// queues the message for the waiters. Subscription routing never
    /// touches the pending waiters.
    pub fn handle_line(&mut self, line: String) -> (r: DispatchAction)
        ensures
            final(self)@ == spec_handle_line(old(self)@, line@),
            r@ == spec_line_action(old(self)@, line@),
            final(self)@.objects == old(self)@.objects,
            final(self)@.write_queue == old(self)@.write_queue,
            final(self)@.message_queue.waiters == spec_handle_line(
                old(self)@,
                line@,
            ).message_queue.waiters,
    {
        let stripped = strip_crlf(line.as_str());
        let message = S2RMessage::from(stripped);
        match message {
            S2RMessage::Subscription(payload) => {
                match Subscription::try_from(payload) {
                    Ok(sub) => {
                        match self.lookup_handler(sub.port_name.as_str()) {
                            Some(handler) => DispatchAction::Handler { handler, value: sub.value },
                            None => DispatchAction::Dropped,
                        }
                    },
                    Err(_) => DispatchAction::Dropped,
                }
            },
            S2RMessage::Log(text) => DispatchAction::LogLine(text),
            other => {
                self.message_queue.push(other);
                DispatchAction::Queued
            },
        }
    }

    /// The handler token registered for a port name, if any.
    #[verifier::loop_isolation(false)]
    pub fn lookup_handler(&self, name: &str) -> (r: Option<usize>)
        ensures
            r == spec_lookup_handler(self@.objects, name@),
    {
        proof {
            lemma_find_object(self@.objects, name@);
        }
        let n = self.objects.len();
        let mut i: usize = 0;
        while i < n
            invariant
                n == self.objects.len(),
                i <= n,
                forall|j: int| 0 <= j < i ==> self@.objects[j].0 != name@,
            decreases n - i,
        {
            if str_eq(self.objects[i].0.as_str(), name) {
                proof {
                    lemma_find_object_unique(self@.objects, name@, i as int);
                }
                return Some(self.objects[i].1);
            }
            proof {
                assert(self@.objects[i as int].0 == self.objects@[i as int].0@);
            }
            i = i + 1;
        }
        None
    }

    /// Removes the oldest outbound command and serializes it for the wire.
    pub fn pop_write(&mut self) -> (r: Option<String>)
        ensures
            final(self)@.objects == old(self)@.objects,
            final(self)@.message_queue == old(self)@.message_queue,
            match r {
                Some(line) => old(self)@.write_queue.len() > 0 && line@ == spec_serialize_command(
                    old(self)@.write_queue[0],
                ) && final(self)@.write_queue == old(self)@.write_queue.skip(1),
                None => old(self)@.write_queue.len() == 0 && final(self)@.write_queue == old(
                    self,
                )@.write_queue,
            },
    {
        self.write_queue.pop()
    }

    /// Starts a transaction under a freshly drawn waiter id and returns that
    /// id; the id is random, so the contract holds for whatever value came
    /// back, and a caller polling it sees its own waiter wherever ids do not
    /// collide.
    pub fn begin_transaction(&mut self, command: FtSwarmCommand) -> (r: (usize, bool))
        ensures
            r.1 == spec_is_subscribe(command@),
            final(self)@.objects == old(self)@.objects,
            final(self)@.write_queue == old(self)@.write_queue.push(command@),
            final(self)@.message_queue == if spec_is_subscribe(command@) {
                old(self)@.message_queue
            } else {
                spec_register(old(self)@.message_queue, r.0, WaiterKind::RpcResponseOrError)
            },
    {
        let id = random_id();
        let fire_and_forget = self.transact_begin(command, id);
        (id, fire_and_forget)
    }

    /// Starts a transaction: the distinguished subscribe command is
    /// fire-and-forget and only enqueued; any other command first registers
    /// a pending waiter under `id` and is then enqueued, so the waiter is
    /// in place before the line can be written.
    pub fn transact_begin(&mut self, command: FtSwarmCommand, id: usize) -> (fire_and_forget:
        bool)
        ensures
            fire_and_forget == spec_is_subscribe(command@),
            final(self)@.objects == old(self)@.objects,
            final(self)@.write_queue == old(self)@.write_queue.push(command@),
            final(self)@.message_queue == if spec_is_subscribe(command@) {
                old(self)@.message_queue
            } else {
                spec_register(old(self)@.message_queue, id, WaiterKind::RpcResponseOrError)
            },
    {
        let fire_and_forget = match &command {
            FtSwarmCommand::RPC(cmd) => cmd.function == RpcFunction::Subscribe,
            _ => false,
        };
        if !fire_and_forget {
            self.message_queue.register_waiter(id, WaiterKind::RpcResponseOrError);
        }
        self.write_queue.push(command);
        fire_and_forget
    }

    /// Registers a bare response waiter under a freshly drawn id, without
    /// sending anything: the next RPC response or error line resolves it.
    /// This is the low-level read-a-response path.
    pub fn begin_response_wait(&mut self) -> (id: usize)
        ensures
            final(self)@.objects == old(self)@.objects,
            final(self)@.write_queue == old(self)@.write_queue,
            final(self)@.message_queue == spec_register(
                old(self)@.message_queue,
                id,
                WaiterKind::RpcResponseOrError,
            ),
    {
        let id = random_id();
        self.message_queue.register_waiter(id, WaiterKind::RpcResponseOrError);
        id
    }

    /// Polls the waiter registered under `id`: once a response or error has
    /// been delivered to it, the waiter is unregistered and the outcome
    /// resolved; until then nothing changes.
    pub fn transact_poll(&mut self, id: usize) -> (r: Option<Result<RPCReturnParam, String>>)
        ensures
            final(self)@.objects == old(self)@.objects,
            final(self)@.write_queue == old(self)@.write_queue,
            final(self)@.message_queue == spec_take_waiter(old(self)@.message_queue, id).0,
            match r {
                Some(outcome) => {
                    &&& spec_take_waiter(old(self)@.message_queue, id).1 matches Some(m)
                    &&& match outcome {
                        Ok(p) => spec_resolve(m) == Ok::<RPCReturnParamView, Seq<char>>(p@),
                        Err(e) => spec_resolve(m) == Err::<RPCReturnParamView, Seq<char>>(e@),
                    }
                },
                None => spec_take_waiter(old(self)@.message_queue, id).1 is None,
            },
    {
        match self.message_queue.take_waiter(id) {
            Some(message) => Some(Self::resolve_response(message)),
            None => None,
        }
    }

    /// Abandons the waiter registered under `id`, delivered or not; the
    /// caller uses this on timeout or cancellation.
    pub fn abandon_waiter(&mut self, id: usize)
        ensures
            final(self)@.objects == old(self)@.objects,
            final(self)@.write_queue == old(self)@.write_queue,
            final(self)@.message_queue == spec_drop_waiter(old(self)@.message_queue, id),
    {
        self.message_queue.drop_waiter(id);
    }

    /// Resolves a message delivered to an RPC waiter: a response is decoded,
    /// an error line fails with the device's text, and any other message
    /// kind fails as a protocol violation.
    pub fn resolve_response(message: S2RMessage) -> (r: Result<RPCReturnParam, String>)
        ensures
            match r {
                Ok(p) => spec_resolve(message@) == Ok::<RPCReturnParamView, Seq<char>>(p@),
                Err(e) => spec_resolve(message@) == Err::<RPCReturnParamView, Seq<char>>(e@),
            },
    {
        match message {
            S2RMessage::RPCResponse(data) => Ok(RPCReturnParam::from(data)),
            S2RMessage::Error(data) => Err(data),
            _ => Err("Received non-RPCResponse message".to_owned()),
        }
    }

    /// How many pending waiters are registered.
    pub fn waiter_count(&self) -> (r: usize)
        ensures
            r == self@.message_queue.waiters.len(),
    {
        self.message_queue.waiter_count()
    }

    /// How many classified messages sit in the backlog queue.
    pub fn queue_len(&self) -> (r: usize)
        ensures
            r == self@.message_queue.queue.len(),
    {
        self.message_queue.queue_len()
    }
}

/// Interprets a transaction outcome as a `whoami` payload.
pub fn whoami_response(param: RPCReturnParam) -> (r: Result<WhoamiResponse, String>)
    ensures
        match r {
            Ok(w) => spec_whoami_of(param@) == Ok::<WhoamiView, Seq<char>>(w@),
            Err(e) => spec_whoami_of(param@) == Err::<WhoamiView, Seq<char>>(e@),
        },
{
    match param {
        RPCReturnParam::String(s) => WhoamiResponse::try_from(s),
        _ => Err("Received non-string response".to_owned()),
    }
}

/// Interprets a transaction outcome as an uptime in whole seconds.
pub fn uptime_response(param: RPCReturnParam) -> (r: Result<u64, String>)
    ensures
        match r {
            Ok(secs) => spec_uptime_of(param@) == Ok::<int, Seq<char>>(secs as int),
            Err(e) => spec_uptime_of(param@) == Err::<int, Seq<char>>(e@),
        },
{
    match param {
        RPCReturnParam::String(s) => crate::direct::parse_uptime(s),
        _ => Err("Received non-string response".to_owned()),
    }
}

/// Relies on rand::random: a pseudo-random value to use as a waiter id;
/// nothing is promised of it.
#[verifier::external_body]
fn random_id() -> usize {
    rand::random::<u64>() as usize
}

/// What one pump iteration read, did, and wrote.
pub struct PumpOutcome {
    /// The raw line read this iteration, if the transport had one.
    pub read: Option<String>,
    /// What was done with the line that was read.
    pub action: Option<DispatchAction>,
    /// The line written this iteration, if one was queued.
    pub wrote: Option<String>,
}

/// The state of the connection after reading (or not reading) one line.
pub open spec fn spec_pump_read(v: InnerFtSwarmView, read: Option<Seq<char>>) -> InnerFtSwarmView {
    match read {
        Some(line) => spec_handle_line(v, line),
        None => v,
    }
}

/// One iteration of the I/O pump over the connection state and a transport:
/// if the transport reports a line available, read and dispatch exactly one;
/// then pop and write at most one queued outbound line. A transport error
/// ends the iteration early and is returned so the caller can surface it and
/// stop the pump.
pub fn pump_step<Serial: SwarmSerialPort>(inner: &mut InnerFtSwarm, serial: &mut Serial) -> (r:
    Result<PumpOutcome, SerialError>)
    ensures
        match r {
            Ok(out) => {
                let mid = spec_pump_read(
                    old(inner)@,
                    match out.read {
                        Some(line) => Some(line@),
                        None => None,
                    },
                );
                &&& match out.read {
                    Some(line) => out.action matches Some(a) && a@ == spec_line_action(
                        old(inner)@,
                        line@,
                    ),
                    None => out.action is None,
                }
                &&& match out.wrote {
                    Some(line) => mid.write_queue.len() > 0 && line@ == spec_serialize_command(
                        mid.write_queue[0],
                    ) && final(inner)@ == InnerFtSwarmView {
                        write_queue: mid.write_queue.skip(1),
                        ..mid
                    },
                    None => mid.write_queue.len() == 0 && final(inner)@ == mid,
                }
            },
            // on a transport error the state is what at most one read step
            // and at most one popped outbound command leave behind
            Err(_) => exists|line_read: Option<Seq<char>>|
                {
                    let mid = #[trigger] spec_pump_read(old(inner)@, line_read);
                    final(inner)@ == mid || (mid.write_queue.len() > 0 && final(inner)@
                        == InnerFtSwarmView { write_queue: mid.write_queue.skip(1), ..mid })
                },
        },
{
    let mut read: Option<String> = None;
    let mut action: Option<DispatchAction> = None;
    let has_line = match serial.available() {
        Ok(b) => b,
        Err(e) => {
            proof {
                assert(spec_pump_read(old(inner)@, None::<Seq<char>>) == old(inner)@);
            }
            return Err(e);
        },
    };
    if has_line {
        let line = match serial.read_line() {
            Ok(line) => line,
            Err(e) => {
                proof {
                    assert(spec_pump_read(old(inner)@, None::<Seq<char>>) == old(inner)@);
                }
                return Err(e);
            },
        };
        let line_copy = line.clone();
        action = Some(inner.handle_line(line));
        read = Some(line_copy);
    }
    let ghost line_read = match &read {
        Some(line) => Some(line@),
        None => None::<Seq<char>>,
    };
    let wrote = match inner.pop_write() {
        Some(data) => {
            let data_copy = data.clone();
            match serial.write_line(data) {
                Ok(_) => {},
                Err(e) => {
                    proof {
                        let mid = spec_pump_read(old(inner)@, line_read);
                        assert(final(inner)@ == InnerFtSwarmView {
                            write_queue: mid.write_queue.skip(1),
                            ..mid
                        });
                    }
                    return Err(e);
                },
            }
            Some(data_copy)
        },
        None => None,
    };
    Ok(PumpOutcome { read, action, wrote })
}

/// One byte of the startup-handshake marker scan: how far into the marker
/// the byte stream has matched after seeing `b`. A mismatched byte restarts
/// the scan from the beginning of the marker.
pub fn marker_step(pos: usize, b: u8, marker: &[u8]) -> (r: usize)
    requires
        pos < marker@.len(),
    ensures
        r == if b == marker@[pos as int] {
            pos + 1
        } else {
            0
        },
{
    if b == marker[pos] {
        pos + 1
    } else {
        0
    }
}

} // verus!
