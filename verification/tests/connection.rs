//! Connection-core behavior: subscription routing, request/response
//! correlation, the pump loop, and the emulator.

use ftswarm::command::direct::FtSwarmDirectCommand;
use ftswarm::command::rpc::{FtSwarmRPCCommand, RpcFunction};
use ftswarm::command::FtSwarmCommand;
use ftswarm::emulator::EmulatedSerialPort;
use ftswarm::message_parser::rpc::RPCReturnParam;
use ftswarm::message_parser::S2RMessage;
use ftswarm::message_queue::{ReturnQueue, WaiterKind, WriteQueue};
use ftswarm::serial::{FixedSerialPort, SwarmSerialPort};
use ftswarm::swarm::{pump_step, whoami_response, uptime_response, DispatchAction, InnerFtSwarm};
use ftswarm::Serialized;

fn whoami() -> FtSwarmCommand {
    FtSwarmCommand::Direct(FtSwarmDirectCommand::Whoami)
}

#[test]
fn subscription_reaches_its_handler_and_no_waiter() {
    let mut core = InnerFtSwarm::new();
    core.push_cache(7, "switch");
    let (id, fire) = core.begin_transaction(whoami());
    assert!(!fire);
    assert_eq!(core.waiter_count(), 1);
    match core.handle_line("S: switch 1".to_string()) {
        DispatchAction::Handler { handler, value } => {
            assert_eq!(handler, 7);
            match value {
                RPCReturnParam::Int(i) => assert_eq!(i, 1),
                _ => panic!("expected the decoded integer"),
            }
        },
        _ => panic!("expected a handler invocation"),
    }
    // the pending request is untouched: still registered, still unresolved
    assert_eq!(core.waiter_count(), 1);
    assert_eq!(core.queue_len(), 0);
    assert!(core.transact_poll(id).is_none());
}

#[test]
fn subscription_without_handler_is_dropped() {
    let mut core = InnerFtSwarm::new();
    core.push_cache(7, "switch");
    match core.handle_line("S: lamp 1".to_string()) {
        DispatchAction::Dropped => {},
        _ => panic!("no handler is registered for lamp"),
    }
    match core.handle_line("S: onlyoneword".to_string()) {
        DispatchAction::Dropped => {},
        _ => panic!("an unparsable subscription is dropped"),
    }
}

#[test]
fn handler_registration_is_idempotent_per_name() {
    let mut core = InnerFtSwarm::new();
    core.push_cache(7, "switch");
    core.push_cache(9, "switch");
    assert_eq!(core.lookup_handler("switch"), Some(9));
}

#[test]
fn log_lines_are_surfaced_not_queued() {
    let mut core = InnerFtSwarm::new();
    match core.handle_line("[boot ok]".to_string()) {
        DispatchAction::LogLine(s) => assert_eq!(s, "[boot ok]"),
        _ => panic!("expected the log text"),
    }
    assert_eq!(core.queue_len(), 0);
}

#[test]
fn whoami_transaction_resolves_from_response_line() {
    let mut core = InnerFtSwarm::new();
    let (id, fire) = core.begin_transaction(whoami());
    assert!(!fire);
    let line = core.pop_write().unwrap();
    assert_eq!(line, "whoami");
    assert!(core.transact_poll(id).is_none());
    match core.handle_line("R: ftSwarm100/example".to_string()) {
        DispatchAction::Queued => {},
        _ => panic!("a response line is queued for the waiters"),
    }
    let outcome = core.transact_poll(id).unwrap().unwrap();
    let w = whoami_response(outcome).unwrap();
    assert_eq!(w.hostname, "example");
    assert_eq!(w.id, "ftSwarm100");
    assert_eq!(core.waiter_count(), 0);
}

#[test]
fn two_sequential_transactions_each_get_their_own_response() {
    let mut core = InnerFtSwarm::new();
    let get_pos = FtSwarmCommand::RPC(FtSwarmRPCCommand {
        target: "servo".to_string(),
        function: RpcFunction::GetPosition,
        args: vec![],
    });
    let (id1, _) = core.begin_transaction(get_pos);
    core.pop_write().unwrap();
    core.handle_line("R: 0".to_string());
    match core.transact_poll(id1).unwrap().unwrap() {
        RPCReturnParam::Int(i) => assert_eq!(i, 0),
        _ => panic!("expected the first response"),
    }
    let get_off = FtSwarmCommand::RPC(FtSwarmRPCCommand {
        target: "servo".to_string(),
        function: RpcFunction::GetOffset,
        args: vec![],
    });
    let (id2, _) = core.begin_transaction(get_off);
    core.pop_write().unwrap();
    core.handle_line("R: 10".to_string());
    match core.transact_poll(id2).unwrap().unwrap() {
        RPCReturnParam::Int(i) => assert_eq!(i, 10),
        _ => panic!("expected the second response"),
    }
    assert_eq!(core.waiter_count(), 0);
}

#[test]
fn device_error_line_fails_the_transaction() {
    let mut core = InnerFtSwarm::new();
    let (id, _) = core.begin_transaction(whoami());
    core.handle_line(" ^ Port not found".to_string());
    let outcome = core.transact_poll(id).unwrap();
    assert_eq!(outcome.unwrap_err(), "^ Port not found");
}

#[test]
fn subscribe_is_fire_and_forget() {
    let mut core = InnerFtSwarm::new();
    let sub = FtSwarmCommand::RPC(FtSwarmRPCCommand {
        target: "switch".to_string(),
        function: RpcFunction::Subscribe,
        args: vec![],
    });
    let (_, fire) = core.begin_transaction(sub);
    assert!(fire);
    assert_eq!(core.waiter_count(), 0);
    assert_eq!(core.pop_write().unwrap(), "switch.subscribe()");
}

#[test]
fn unresolved_waiter_can_be_abandoned() {
    let mut core = InnerFtSwarm::new();
    let (id, _) = core.begin_transaction(whoami());
    assert!(core.transact_poll(id).is_none());
    assert_eq!(core.waiter_count(), 1);
    core.abandon_waiter(id);
    assert_eq!(core.waiter_count(), 0);
    assert!(core.transact_poll(id).is_none());
}

#[test]
fn outbound_commands_leave_in_issuance_order() {
    let mut q = WriteQueue::new();
    q.push(FtSwarmCommand::Direct(FtSwarmDirectCommand::Whoami));
    q.push(FtSwarmCommand::Direct(FtSwarmDirectCommand::Halt));
    assert_eq!(q.pop(), Some("whoami".to_string()));
    assert_eq!(q.pop(), Some("halt".to_string()));
    assert_eq!(q.pop(), None);
}

#[test]
fn return_queue_takes_by_kind() {
    let mut q = ReturnQueue::new();
    q.push(S2RMessage::Log("[noise]".to_string()));
    q.push(S2RMessage::RPCResponse("1".to_string()));
    q.push(S2RMessage::Subscription("sw 1".to_string()));
    q.push(S2RMessage::Error("bad".to_string()));
    match q.take_subscription() {
        Some(S2RMessage::Subscription(s)) => assert_eq!(s, "sw 1"),
        _ => panic!("expected the subscription"),
    }
    match q.take_rpc_response_or_error() {
        Some(S2RMessage::RPCResponse(s)) => assert_eq!(s, "1"),
        _ => panic!("expected the response first"),
    }
    match q.take_rpc_response_or_error() {
        Some(S2RMessage::Error(s)) => assert_eq!(s, "bad"),
        _ => panic!("expected the error next"),
    }
    assert!(q.take_rpc_response_or_error().is_none());
    assert!(q.take_subscription().is_none());
}

#[test]
fn broadcast_fills_each_empty_mailbox_once() {
    let mut q = ReturnQueue::new();
    q.register_waiter(1, WaiterKind::RpcResponseOrError);
    q.register_waiter(2, WaiterKind::RpcResponseOrError);
    q.push(S2RMessage::RPCResponse("first".to_string()));
    q.push(S2RMessage::RPCResponse("second".to_string()));
    // both waiters kept the first message that arrived after they registered
    match q.take_waiter(1) {
        Some(S2RMessage::RPCResponse(s)) => assert_eq!(s, "first"),
        _ => panic!("expected the broadcast message"),
    }
    match q.take_waiter(2) {
        Some(S2RMessage::RPCResponse(s)) => assert_eq!(s, "first"),
        _ => panic!("expected the broadcast message"),
    }
    assert_eq!(q.waiter_count(), 0);
}

#[test]
fn pump_reads_one_line_and_writes_one_line() {
    let mut core = InnerFtSwarm::new();
    let mut serial = FixedSerialPort::new();
    serial.add_response("R: ftSwarm100/example");
    serial.block_until("@@@".to_string()).unwrap();
    let (id, _) = core.begin_transaction(whoami());
    let out = pump_step(&mut core, &mut serial).unwrap();
    assert_eq!(out.read, Some("R: ftSwarm100/example".to_string()));
    assert!(matches!(out.action, Some(DispatchAction::Queued)));
    assert_eq!(out.wrote, Some("whoami".to_string()));
    let outcome = core.transact_poll(id).unwrap().unwrap();
    let w = whoami_response(outcome).unwrap();
    assert_eq!(w.id, "ftSwarm100");
    assert_eq!(w.hostname, "example");
    // nothing left to do
    let idle = pump_step(&mut core, &mut serial).unwrap();
    assert_eq!(idle.read, None);
    assert_eq!(idle.wrote, None);
}

#[test]
fn fixed_port_stays_silent_before_handshake() {
    let serial = FixedSerialPort::new();
    assert_eq!(serial.available().unwrap(), false);
    let mut serial = serial;
    serial.add_response("R: 1");
    assert_eq!(serial.available().unwrap(), false);
    serial.block_until("@@@".to_string()).unwrap();
    assert_eq!(serial.available().unwrap(), true);
    assert_eq!(serial.read_line().unwrap(), "R: 1");
}

#[test]
fn emulator_answers_direct_and_rpc_commands() {
    let mut port = EmulatedSerialPort::new();
    assert_eq!(port.available().unwrap(), false);
    port.write_line("whoami".to_string()).unwrap();
    assert_eq!(port.read_line().unwrap(), "ftSwarm100/kelda");
    port.write_line("uptime".to_string()).unwrap();
    assert_eq!(port.read_line().unwrap(), "uptime: 31.000 s");
    port.write_line("controller.setRegister(0, 1)".to_string()).unwrap();
    assert_eq!(port.read_line().unwrap(), "R: Ok");
    port.write_line("ntc.getValue()".to_string()).unwrap();
    assert_eq!(port.read_line().unwrap(), "R: 0");
    port.write_line("sw.subscribe(0)".to_string()).unwrap();
    assert_eq!(port.available().unwrap(), false);
    assert!(port.write_line("!! not a command".to_string()).is_err());
}

#[test]
fn transaction_against_the_emulator_via_the_pump() {
    let mut core = InnerFtSwarm::new();
    let mut port = EmulatedSerialPort::new();
    let set_reg = FtSwarmCommand::RPC(FtSwarmRPCCommand {
        target: "controller".to_string(),
        function: RpcFunction::SetRegister,
        args: vec![
            ftswarm::command::argument::Argument::Int(0),
            ftswarm::command::argument::Argument::Int(1),
        ],
    });
    let (id, fire) = core.begin_transaction(set_reg);
    assert!(!fire);
    // first iteration writes the command; second reads the emulator's answer
    pump_step(&mut core, &mut port).unwrap();
    pump_step(&mut core, &mut port).unwrap();
    match core.transact_poll(id).unwrap().unwrap() {
        RPCReturnParam::Okay => {},
        _ => panic!("the emulator acknowledges setRegister"),
    }
}

#[test]
fn bare_response_wait_resolves_from_next_response() {
    let mut core = InnerFtSwarm::new();
    let id = core.begin_response_wait();
    assert!(core.transact_poll(id).is_none());
    core.handle_line("R: 5".to_string());
    match core.transact_poll(id).unwrap().unwrap() {
        RPCReturnParam::Int(i) => assert_eq!(i, 5),
        _ => panic!("expected the queued response"),
    }
}

#[test]
fn unexpected_message_kind_is_a_protocol_violation() {
    let outcome = InnerFtSwarm::resolve_response(S2RMessage::StartCLI);
    assert_eq!(outcome.unwrap_err(), "Received non-RPCResponse message");
}

#[test]
fn marker_scan_restarts_on_mismatch() {
    let marker = "@@@".as_bytes();
    let mut pos = 0usize;
    for b in "x@@y@@@".bytes() {
        pos = ftswarm::swarm::marker_step(pos, b, marker);
        if pos == marker.len() {
            break;
        }
    }
    assert_eq!(pos, 3);
}

#[test]
fn uptime_response_reads_seconds() {
    assert_eq!(uptime_response(RPCReturnParam::String("uptime: 31.000 s".to_string())), Ok(31));
    assert_eq!(
        uptime_response(RPCReturnParam::Int(31)),
        Err("Received non-string response".to_string())
    );
}
