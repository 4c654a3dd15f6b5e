//! Wire-codec behavior: command serialization and the read-back direction,
//! line classification, and payload decoding.

use ftswarm::command::argument::Argument;
use ftswarm::command::direct::FtSwarmDirectCommand;
use ftswarm::command::rpc::{FtSwarmRPCCommand, RpcFunction};
use ftswarm::command::FtSwarmCommand;
use ftswarm::direct::{parse_uptime, WhoamiResponse};
use ftswarm::message_parser::rpc::{parse_result, RPCReturnParam};
use ftswarm::message_parser::subscription::Subscription;
use ftswarm::message_parser::S2RMessage;
use ftswarm::numtext::{i64_to_string, is_float_text, parse_i32, parse_i64, parse_u64};
use ftswarm::{Deserialized, Serialized};

fn test_serialize<T: Serialized>(obj: T, expected: &str) {
    assert_eq!(obj.serialize(), expected);
}

#[test]
fn test_serialize_rpc() {
    test_serialize(
        FtSwarmCommand::RPC(FtSwarmRPCCommand {
            target: "hello".to_string(),
            function: RpcFunction::GetResistance,
            args: vec![Argument::Int(42)],
        }),
        "hello.getResistance(42)",
    );
}

#[test]
fn test_serialize_direct() {
    test_serialize(FtSwarmCommand::Direct(FtSwarmDirectCommand::Help), "help");
}

#[test]
fn test_deserialize_rpc() {
    let cmd = FtSwarmCommand::deserialize(&"hello.getResistance(42)".to_string()).unwrap();
    match cmd {
        FtSwarmCommand::RPC(rpc) => {
            assert_eq!(rpc.target, "hello");
            assert_eq!(rpc.function, RpcFunction::GetResistance);
            assert_eq!(rpc.args.len(), 1);
            match &rpc.args[0] {
                Argument::Int(i) => assert_eq!(*i, 42),
                _ => panic!("Expected int argument"),
            }
        },
        _ => panic!("Expected RPC command"),
    }
}

#[test]
fn test_deserialize_direct() {
    let cmd = FtSwarmCommand::deserialize(&"help".to_string()).unwrap();
    match cmd {
        FtSwarmCommand::Direct(FtSwarmDirectCommand::Help) => {},
        _ => panic!("Expected Direct command"),
    }
}

#[test]
fn serialize_round_trips_for_integer_arguments() {
    let cmd = FtSwarmCommand::RPC(FtSwarmRPCCommand {
        target: "led1".to_string(),
        function: RpcFunction::SetBrightness,
        args: vec![Argument::Int(-7), Argument::Int(0), Argument::Int(9_223_372_036_854_775_807)],
    });
    let line = cmd.serialize();
    assert_eq!(line, "led1.setBrightness(-7, 0, 9223372036854775807)");
    let back = FtSwarmCommand::deserialize(&line).unwrap();
    match back {
        FtSwarmCommand::RPC(rpc) => {
            assert_eq!(rpc.target, "led1");
            assert_eq!(rpc.function, RpcFunction::SetBrightness);
            assert_eq!(rpc.args.len(), 3);
            match (&rpc.args[0], &rpc.args[1], &rpc.args[2]) {
                (Argument::Int(a), Argument::Int(b), Argument::Int(c)) => {
                    assert_eq!(*a, -7);
                    assert_eq!(*b, 0);
                    assert_eq!(*c, 9_223_372_036_854_775_807);
                },
                _ => panic!("Expected int arguments"),
            }
        },
        _ => panic!("Expected RPC command"),
    }
}

#[test]
fn serialize_empty_argument_list_round_trips() {
    let cmd = FtSwarmCommand::RPC(FtSwarmRPCCommand {
        target: "servo".to_string(),
        function: RpcFunction::GetPosition,
        args: vec![],
    });
    let line = cmd.serialize();
    assert_eq!(line, "servo.getPosition()");
    let back = FtSwarmCommand::deserialize(&line).unwrap();
    match back {
        FtSwarmCommand::RPC(rpc) => {
            assert_eq!(rpc.function, RpcFunction::GetPosition);
            assert_eq!(rpc.args.len(), 0);
        },
        _ => panic!("Expected RPC command"),
    }
}

#[test]
fn serialize_non_integer_arguments() {
    let cmd = FtSwarmCommand::RPC(FtSwarmRPCCommand {
        target: "motor".to_string(),
        function: RpcFunction::SetSpeed,
        args: vec![Argument::Bool(true), Argument::Float("2.5".to_string())],
    });
    assert_eq!(cmd.serialize(), "motor.setSpeed(1, 2.5)");
}

#[test]
fn deserialize_rejects_unknown_function() {
    let err = FtSwarmCommand::deserialize(&"x.frobnicate(1)".to_string()).unwrap_err();
    assert_eq!(err, "Unknown function: frobnicate");
}

#[test]
fn deserialize_rejects_unknown_direct_command() {
    let err = FtSwarmCommand::deserialize(&"reboot".to_string()).unwrap_err();
    assert_eq!(err, "Unknown command: reboot");
}

#[test]
fn deserialize_rejects_missing_delimiters() {
    let err = FtSwarmRPCCommand::deserialize(&"nodothere".to_string()).unwrap_err();
    assert_eq!(err, "Can't find function");
    let err = FtSwarmRPCCommand::deserialize(&"a.noparen".to_string()).unwrap_err();
    assert_eq!(err, "Can't find args");
    let err = FtSwarmCommand::deserialize(&"a.getValue(x)".to_string()).unwrap_err();
    assert_eq!(err, "Error parsing int at x");
}

#[test]
fn classify_covers_every_kind_in_priority_order() {
    match S2RMessage::from("[boot]".to_string()) {
        S2RMessage::Log(s) => assert_eq!(s, "[boot]"),
        _ => panic!("expected a log line"),
    }
    match S2RMessage::from("R: 42".to_string()) {
        S2RMessage::RPCResponse(s) => assert_eq!(s, "42"),
        _ => panic!("expected an RPC response"),
    }
    match S2RMessage::from("S: m1 1".to_string()) {
        S2RMessage::Subscription(s) => assert_eq!(s, "m1 1"),
        _ => panic!("expected a subscription"),
    }
    match S2RMessage::from("  ^ Error: bad port".to_string()) {
        S2RMessage::Error(s) => assert_eq!(s, "bad port"),
        _ => panic!("expected an error"),
    }
    match S2RMessage::from("plain".to_string()) {
        S2RMessage::RPCResponse(s) => assert_eq!(s, "plain"),
        _ => panic!("expected the fallback"),
    }
    match S2RMessage::from("boot: @@@ ftSwarmOS CLI started @@@".to_string()) {
        S2RMessage::StartCLI => {},
        _ => panic!("expected the banner"),
    }
}

#[test]
fn classify_banner_wins_over_every_prefix() {
    match S2RMessage::from("[log @@@ ftSwarmOS CLI started]".to_string()) {
        S2RMessage::StartCLI => {},
        _ => panic!("the banner has priority over the log prefix"),
    }
}

#[test]
fn classify_error_keeps_text_without_marker() {
    match S2RMessage::from(" ^ Port not found".to_string()) {
        S2RMessage::Error(s) => assert_eq!(s, "^ Port not found"),
        _ => panic!("expected an error"),
    }
}

#[test]
fn decode_fallback_order() {
    match RPCReturnParam::from("5".to_string()) {
        RPCReturnParam::Int(i) => assert_eq!(i, 5),
        _ => panic!("expected an integer"),
    }
    match RPCReturnParam::from("3.14".to_string()) {
        RPCReturnParam::Float(t) => {
            assert_eq!(t, "3.14");
            assert_eq!(t.parse::<f32>().unwrap(), 3.14f32);
        },
        _ => panic!("expected a float"),
    }
    assert!(matches!(RPCReturnParam::from("ok".to_string()), RPCReturnParam::Okay));
    assert!(matches!(RPCReturnParam::from("Ok".to_string()), RPCReturnParam::Okay));
    assert!(matches!(RPCReturnParam::from("OK".to_string()), RPCReturnParam::Okay));
    match RPCReturnParam::from("hello".to_string()) {
        RPCReturnParam::String(s) => assert_eq!(s, "hello"),
        _ => panic!("expected a string"),
    }
}

#[test]
fn decode_integer_overflow_falls_back_to_float() {
    match RPCReturnParam::from("2147483648".to_string()) {
        RPCReturnParam::Float(t) => assert_eq!(t, "2147483648"),
        _ => panic!("an out-of-range integer is still a numeric token"),
    }
    match RPCReturnParam::from("2147483647".to_string()) {
        RPCReturnParam::Int(i) => assert_eq!(i, 2147483647),
        _ => panic!("the largest i32 still decodes as an integer"),
    }
}

#[test]
fn parse_result_accepts_ok_case_insensitively() {
    assert!(parse_result("ok").is_ok());
    assert!(parse_result("oK").is_ok());
    assert!(parse_result("OK").is_ok());
    assert!(parse_result("okay").is_err());
    assert!(parse_result("").is_err());
}

#[test]
fn float_token_grammar() {
    assert!(is_float_text("1e5"));
    assert!(is_float_text("-3."));
    assert!(is_float_text(".5"));
    assert!(is_float_text("+2.5e-3"));
    assert!(is_float_text("inf"));
    assert!(is_float_text("-Infinity"));
    assert!(is_float_text("NaN"));
    assert!(!is_float_text(""));
    assert!(!is_float_text("1e"));
    assert!(!is_float_text("1.2.3"));
    assert!(!is_float_text("."));
    assert!(!is_float_text("e5"));
    assert!(!is_float_text("ok"));
}

#[test]
fn integer_text_round_trips() {
    assert_eq!(i64_to_string(0), "0");
    assert_eq!(i64_to_string(-1), "-1");
    assert_eq!(i64_to_string(i64::MIN), "-9223372036854775808");
    assert_eq!(parse_i64("-9223372036854775808"), Some(i64::MIN));
    assert_eq!(parse_i64("9223372036854775808"), None);
    assert_eq!(parse_i32("+5"), Some(5));
    assert_eq!(parse_i32("-2147483648"), Some(i32::MIN));
    assert_eq!(parse_i32("2147483648"), None);
    assert_eq!(parse_u64("007"), Some(7));
    assert_eq!(parse_u64("-1"), None);
    assert_eq!(parse_u64(""), None);
    assert_eq!(parse_u64("+"), None);
}

#[test]
fn subscription_splits_port_and_value() {
    let sub = Subscription::try_from("led1 255".to_string()).unwrap();
    assert_eq!(sub.port_name, "led1");
    match sub.value {
        RPCReturnParam::Int(i) => assert_eq!(i, 255),
        _ => panic!("expected an integer value"),
    }
    assert!(Subscription::try_from("led1".to_string()).is_err());
    assert!(Subscription::try_from("   ".to_string()).is_err());
    let sub = Subscription::try_from("  sw  up extra".to_string()).unwrap();
    assert_eq!(sub.port_name, "sw");
    match sub.value {
        RPCReturnParam::String(s) => assert_eq!(s, "up"),
        _ => panic!("expected a string value"),
    }
}

#[test]
fn whoami_splits_on_slashes() {
    let w = WhoamiResponse::try_from("ftSwarm100/example".to_string()).unwrap();
    assert_eq!(w.id, "ftSwarm100");
    assert_eq!(w.hostname, "example");
    assert_eq!(w.serial, None);
    let w = WhoamiResponse::try_from("ftSwarm100/example/100".to_string()).unwrap();
    assert_eq!(w.serial, Some("100".to_string()));
    let err = WhoamiResponse::try_from("nohost".to_string()).unwrap_err();
    assert_eq!(err, "No hostname found");
}

#[test]
fn uptime_reads_the_seconds_field() {
    assert_eq!(parse_uptime("uptime: 31.000 s".to_string()), Ok(31));
    assert_eq!(parse_uptime("7".to_string()), Ok(7));
    assert_eq!(
        parse_uptime("uptime: soon".to_string()),
        Err("Failed to parse uptime".to_string())
    );
}
