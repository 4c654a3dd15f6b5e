//! RPC commands: a call `target.function(arg0, arg1, ...)` addressed to a
//! named port, with a fixed vocabulary of function names. Reading a command
//! back from its wire text supports integer arguments only; this asymmetry
//! is part of the wire contract.

use vstd::prelude::*;
use vstd::string::*;

use crate::command::argument::{spec_deserialize_argument, spec_serialize_argument, Argument,
    ArgumentView};
use crate::text::{find_char, find_char_spec, lemma_find_char, split_all, split_char_spec, str_eq,
    substring, trim, trim_end_char, trim_end_char_spec, trim_spec};
use crate::{Deserialized, NameOf, Serialized};

verus! {

#[derive(Debug, Eq, PartialEq, PartialOrd, Ord, Clone, Copy, Structural)]
pub enum RpcFunction {
    Show,
    TriggerUserEvent,
    SetMicroStepMode,
    GetMicroStepMode,
    Subscribe,
    GetIOType,
    SetSensorType,
    GetSensorType,
    GetValue,
    GetVoltage,
    GetResistance,
    GetKelvin,
    GetCelsius,
    GetFahrenheit,
    GetToggle,
    OnTrigger,
    GetActorType,
    SetActorType,
    SetSpeed,
    GetSpeed,
    SetMotionType,
    GetMotionType,
    SetPosition,
    GetPosition,
    SetOffset,
    GetOffset,
    SetColor,
    GetColor,
    SetBrightness,
    GetBrightness,
    SetRegister,
    GetRegister,
}

impl View for RpcFunction {
    type V = RpcFunction;

    open spec fn view(&self) -> RpcFunction {
        *self
    }
}

/// The lower-camel-case wire name of each RPC function.
pub open spec fn spec_rpc_name(f: RpcFunction) -> Seq<char> {
    match f {
        RpcFunction::Show => "show"@,
        RpcFunction::TriggerUserEvent => "triggerUserEvent"@,
        RpcFunction::SetMicroStepMode => "setMicroStepMode"@,
        RpcFunction::GetMicroStepMode => "getMicroStepMode"@,
        RpcFunction::Subscribe => "subscribe"@,
        RpcFunction::GetIOType => "getIOType"@,
        RpcFunction::SetSensorType => "setSensorType"@,
        RpcFunction::GetSensorType => "getSensorType"@,
        RpcFunction::GetValue => "getValue"@,
        RpcFunction::GetVoltage => "getVoltage"@,
        RpcFunction::GetResistance => "getResistance"@,
        RpcFunction::GetKelvin => "getKelvin"@,
        RpcFunction::GetCelsius => "getCelcius"@,
        RpcFunction::GetFahrenheit => "getFahrenheit"@,
        RpcFunction::GetToggle => "getToggle"@,
        RpcFunction::OnTrigger => "onTrigger"@,
        RpcFunction::GetActorType => "getActorType"@,
        RpcFunction::SetActorType => "setActorType"@,
        RpcFunction::SetSpeed => "setSpeed"@,
        RpcFunction::GetSpeed => "getSpeed"@,
        RpcFunction::SetMotionType => "setMotionType"@,
        RpcFunction::GetMotionType => "getMotionType"@,
        RpcFunction::SetPosition => "setPosition"@,
        RpcFunction::GetPosition => "getPosition"@,
        RpcFunction::SetOffset => "setOffset"@,
        RpcFunction::GetOffset => "getOffset"@,
        RpcFunction::SetColor => "setColor"@,
        RpcFunction::GetColor => "getColor"@,
        RpcFunction::SetBrightness => "setBrightness"@,
        RpcFunction::GetBrightness => "getBrightness"@,
        RpcFunction::SetRegister => "setRegister"@,
        RpcFunction::GetRegister => "getRegister"@,
    }
}

impl NameOf for RpcFunction {
    open spec fn spec_name(&self) -> Seq<char> {
        spec_rpc_name(*self)
    }

    fn name(&self) -> (r: String) {
        match self {
            RpcFunction::Show => "show".to_owned(),
            RpcFunction::TriggerUserEvent => "triggerUserEvent".to_owned(),
            RpcFunction::SetMicroStepMode => "setMicroStepMode".to_owned(),
            RpcFunction::GetMicroStepMode => "getMicroStepMode".to_owned(),
            RpcFunction::Subscribe => "subscribe".to_owned(),
            RpcFunction::GetIOType => "getIOType".to_owned(),
            RpcFunction::SetSensorType => "setSensorType".to_owned(),
            RpcFunction::GetSensorType => "getSensorType".to_owned(),
            RpcFunction::GetValue => "getValue".to_owned(),
            RpcFunction::GetVoltage => "getVoltage".to_owned(),
            RpcFunction::GetResistance => "getResistance".to_owned(),
            RpcFunction::GetKelvin => "getKelvin".to_owned(),
            RpcFunction::GetCelsius => "getCelcius".to_owned(),
            RpcFunction::GetFahrenheit => "getFahrenheit".to_owned(),
            RpcFunction::GetToggle => "getToggle".to_owned(),
            RpcFunction::OnTrigger => "onTrigger".to_owned(),
            RpcFunction::GetActorType => "getActorType".to_owned(),
            RpcFunction::SetActorType => "setActorType".to_owned(),
            RpcFunction::SetSpeed => "setSpeed".to_owned(),
            RpcFunction::GetSpeed => "getSpeed".to_owned(),
            RpcFunction::SetMotionType => "setMotionType".to_owned(),
            RpcFunction::GetMotionType => "getMotionType".to_owned(),
            RpcFunction::SetPosition => "setPosition".to_owned(),
            RpcFunction::GetPosition => "getPosition".to_owned(),
            RpcFunction::SetOffset => "setOffset".to_owned(),
            RpcFunction::GetOffset => "getOffset".to_owned(),
            RpcFunction::SetColor => "setColor".to_owned(),
            RpcFunction::GetColor => "getColor".to_owned(),
            RpcFunction::SetBrightness => "setBrightness".to_owned(),
            RpcFunction::GetBrightness => "getBrightness".to_owned(),
            RpcFunction::SetRegister => "setRegister".to_owned(),
            RpcFunction::GetRegister => "getRegister".to_owned(),
        }
    }
}

/// The RPC function a wire name denotes, tried in declaration order.
pub open spec fn spec_deserialize_rpc_function(s: Seq<char>) -> Result<RpcFunction, Seq<char>> {
    if s == spec_rpc_name(RpcFunction::Show) {
        Ok(RpcFunction::Show)
    } else if s == spec_rpc_name(RpcFunction::TriggerUserEvent) {
        Ok(RpcFunction::TriggerUserEvent)
    } else if s == spec_rpc_name(RpcFunction::SetMicroStepMode) {
        Ok(RpcFunction::SetMicroStepMode)
    } else if s == spec_rpc_name(RpcFunction::GetMicroStepMode) {
        Ok(RpcFunction::GetMicroStepMode)
    } else if s == spec_rpc_name(RpcFunction::Subscribe) {
        Ok(RpcFunction::Subscribe)
    } else if s == spec_rpc_name(RpcFunction::GetIOType) {
        Ok(RpcFunction::GetIOType)
    } else if s == spec_rpc_name(RpcFunction::SetSensorType) {
        Ok(RpcFunction::SetSensorType)
    } else if s == spec_rpc_name(RpcFunction::GetSensorType) {
        Ok(RpcFunction::GetSensorType)
    } else if s == spec_rpc_name(RpcFunction::GetValue) {
        Ok(RpcFunction::GetValue)
    } else if s == spec_rpc_name(RpcFunction::GetVoltage) {
        Ok(RpcFunction::GetVoltage)
    } else if s == spec_rpc_name(RpcFunction::GetResistance) {
        Ok(RpcFunction::GetResistance)
    } else if s == spec_rpc_name(RpcFunction::GetKelvin) {
        Ok(RpcFunction::GetKelvin)
    } else if s == spec_rpc_name(RpcFunction::GetCelsius) {
        Ok(RpcFunction::GetCelsius)
    } else if s == spec_rpc_name(RpcFunction::GetFahrenheit) {
        Ok(RpcFunction::GetFahrenheit)
    } else if s == spec_rpc_name(RpcFunction::GetToggle) {
        Ok(RpcFunction::GetToggle)
    } else if s == spec_rpc_name(RpcFunction::OnTrigger) {
        Ok(RpcFunction::OnTrigger)
    } else if s == spec_rpc_name(RpcFunction::GetActorType) {
        Ok(RpcFunction::GetActorType)
    } else if s == spec_rpc_name(RpcFunction::SetActorType) {
        Ok(RpcFunction::SetActorType)
    } else if s == spec_rpc_name(RpcFunction::SetSpeed) {
        Ok(RpcFunction::SetSpeed)
    } else if s == spec_rpc_name(RpcFunction::GetSpeed) {
        Ok(RpcFunction::GetSpeed)
    } else if s == spec_rpc_name(RpcFunction::SetMotionType) {
        Ok(RpcFunction::SetMotionType)
    } else if s == spec_rpc_name(RpcFunction::GetMotionType) {
        Ok(RpcFunction::GetMotionType)
    } else if s == spec_rpc_name(RpcFunction::SetPosition) {
        Ok(RpcFunction::SetPosition)
    } else if s == spec_rpc_name(RpcFunction::GetPosition) {
        Ok(RpcFunction::GetPosition)
    } else if s == spec_rpc_name(RpcFunction::SetOffset) {
        Ok(RpcFunction::SetOffset)
    } else if s == spec_rpc_name(RpcFunction::GetOffset) {
        Ok(RpcFunction::GetOffset)
    } else if s == spec_rpc_name(RpcFunction::SetColor) {
        Ok(RpcFunction::SetColor)
    } else if s == spec_rpc_name(RpcFunction::GetColor) {
        Ok(RpcFunction::GetColor)
    } else if s == spec_rpc_name(RpcFunction::SetBrightness) {
        Ok(RpcFunction::SetBrightness)
    } else if s == spec_rpc_name(RpcFunction::GetBrightness) {
        Ok(RpcFunction::GetBrightness)
    } else if s == spec_rpc_name(RpcFunction::SetRegister) {
        Ok(RpcFunction::SetRegister)
    } else if s == spec_rpc_name(RpcFunction::GetRegister) {
        Ok(RpcFunction::GetRegister)
    } else {
        Err("Unknown function: "@ + s)
    }
}

impl Deserialized for RpcFunction {
    open spec fn spec_deserialize(s: Seq<char>) -> Result<RpcFunction, Seq<char>> {
        spec_deserialize_rpc_function(s)
    }

    fn deserialize(value: &String) -> (r: Result<RpcFunction, String>) {
        let v = value.as_str();
        if str_eq(v, "show") {
            Ok(RpcFunction::Show)
        } else if str_eq(v, "triggerUserEvent") {
            Ok(RpcFunction::TriggerUserEvent)
        } else if str_eq(v, "setMicroStepMode") {
            Ok(RpcFunction::SetMicroStepMode)
        } else if str_eq(v, "getMicroStepMode") {
            Ok(RpcFunction::GetMicroStepMode)
        } else if str_eq(v, "subscribe") {
            Ok(RpcFunction::Subscribe)
        } else if str_eq(v, "getIOType") {
            Ok(RpcFunction::GetIOType)
        } else if str_eq(v, "setSensorType") {
            Ok(RpcFunction::SetSensorType)
        } else if str_eq(v, "getSensorType") {
            Ok(RpcFunction::GetSensorType)
        } else if str_eq(v, "getValue") {
            Ok(RpcFunction::GetValue)
        } else if str_eq(v, "getVoltage") {
            Ok(RpcFunction::GetVoltage)
        } else if str_eq(v, "getResistance") {
            Ok(RpcFunction::GetResistance)
        } else if str_eq(v, "getKelvin") {
            Ok(RpcFunction::GetKelvin)
        } else if str_eq(v, "getCelcius") {
            Ok(RpcFunction::GetCelsius)
        } else if str_eq(v, "getFahrenheit") {
            Ok(RpcFunction::GetFahrenheit)
        } else if str_eq(v, "getToggle") {
            Ok(RpcFunction::GetToggle)
        } else if str_eq(v, "onTrigger") {
            Ok(RpcFunction::OnTrigger)
        } else if str_eq(v, "getActorType") {
            Ok(RpcFunction::GetActorType)
        } else if str_eq(v, "setActorType") {
            Ok(RpcFunction::SetActorType)
        } else if str_eq(v, "setSpeed") {
            Ok(RpcFunction::SetSpeed)
        } else if str_eq(v, "getSpeed") {
            Ok(RpcFunction::GetSpeed)
        } else if str_eq(v, "setMotionType") {
            Ok(RpcFunction::SetMotionType)
        } else if str_eq(v, "getMotionType") {
            Ok(RpcFunction::GetMotionType)
        } else if str_eq(v, "setPosition") {
            Ok(RpcFunction::SetPosition)
        } else if str_eq(v, "getPosition") {
            Ok(RpcFunction::GetPosition)
        } else if str_eq(v, "setOffset") {
            Ok(RpcFunction::SetOffset)
        } else if str_eq(v, "getOffset") {
            Ok(RpcFunction::GetOffset)
        } else if str_eq(v, "setColor") {
            Ok(RpcFunction::SetColor)
        } else if str_eq(v, "getColor") {
            Ok(RpcFunction::GetColor)
        } else if str_eq(v, "setBrightness") {
            Ok(RpcFunction::SetBrightness)
        } else if str_eq(v, "getBrightness") {
            Ok(RpcFunction::GetBrightness)
        } else if str_eq(v, "setRegister") {
            Ok(RpcFunction::SetRegister)
        } else if str_eq(v, "getRegister") {
            Ok(RpcFunction::GetRegister)
        } else {
            let mut e = "Unknown function: ".to_owned();
            e.append(value.as_str());
            Err(e)
        }
    }
}

/// Mathematical model of an RPC command.
pub struct RpcCommandView {
    pub target: Seq<char>,
    pub function: RpcFunction,
    pub args: Seq<ArgumentView>,
}

#[derive(Debug)]
pub struct FtSwarmRPCCommand {
    pub target: String,
    pub function: RpcFunction,
    pub args: Vec<Argument>,
}

impl View for FtSwarmRPCCommand {
    type V = RpcCommandView;

    open spec fn view(&self) -> RpcCommandView {
        RpcCommandView { target: self.target@, function: self.function, args: self.args.deep_view() }
    }
}

/// The argument list as it appears between the parentheses: tokens joined
/// by a comma and a space.
pub open spec fn spec_args_text(args: Seq<ArgumentView>) -> Seq<char>
    decreases args.len(),
{
    if args.len() == 0 {
        Seq::empty()
    } else if args.len() == 1 {
        spec_serialize_argument(args[0])
    } else {
        spec_args_text(args.drop_last()) + seq![',', ' '] + spec_serialize_argument(args.last())
    }
}

/// Wire text of an RPC command: `target.function(arg0, arg1, ...)`.
pub open spec fn spec_serialize_rpc(cmd: RpcCommandView) -> Seq<char> {
    cmd.target + seq!['.'] + spec_rpc_name(cmd.function) + seq!['('] + spec_args_text(cmd.args)
        + seq![')']
}

impl Serialized for FtSwarmRPCCommand {
    open spec fn spec_serialize(&self) -> Seq<char> {
        spec_serialize_rpc(self@)
    }

    #[verifier::loop_isolation(false)]
    fn serialize(&self) -> (r: String) {
        proof {
            reveal_strlit(".");
            reveal_strlit("(");
            reveal_strlit(")");
            reveal_strlit(", ");
            assert("."@ =~= seq!['.']);
            assert("("@ =~= seq!['(']);
            assert(")"@ =~= seq![')']);
            assert(", "@ =~= seq![',', ' ']);
        }
        let mut out = self.target.clone();
        out.append(".");
        let name = self.function.name();
        out.append(name.as_str());
        out.append("(");
        let ghost head = self.target@ + seq!['.'] + spec_rpc_name(self.function) + seq!['('];
        proof {
            assert(out@ =~= head);
        }
        let n = self.args.len();
        let mut i: usize = 0;
        while i < n
            invariant
                n == self.args.len(),
                i <= n,
                out@ == head + spec_args_text(self.args.deep_view().take(i as int)),
        decreases n - i,
        {
            if i > 0 {
                out.append(", ");
            }
            let a = self.args[i].serialize();
            out.append(a.as_str());
            proof {
                let views = self.args.deep_view();
                assert(views.take(i + 1).drop_last() =~= views.take(i as int));
                assert(views.take(i + 1).last() == views[i as int]);
                if i == 0 {
                    assert(spec_args_text(views.take(1)) == spec_serialize_argument(views[0]));
                    assert(out@ =~= head + spec_args_text(views.take(1)));
                } else {
                    assert(out@ =~= head + spec_args_text(views.take(i + 1)));
                }
            }
            i = i + 1;
        }
        out.append(")");
        proof {
            assert(self.args.deep_view().take(n as int) =~= self.args.deep_view());
            assert(out@ =~= spec_serialize_rpc(self@));
        }
        out
    }
}

/// The argument views denoted by the comma-separated pieces of an argument
/// list: each piece is trimmed, empty pieces are skipped, and every other
/// piece must be an integer token.
pub open spec fn spec_parse_args(pieces: Seq<Seq<char>>) -> Result<Seq<ArgumentView>, Seq<char>>
    decreases pieces.len(),
{
    if pieces.len() == 0 {
        Ok(Seq::empty())
    } else {
        match spec_parse_args(pieces.drop_last()) {
            Err(e) => Err(e),
            Ok(args) => {
                let t = trim_spec(pieces.last());
                if t.len() == 0 {
                    Ok(args)
                } else {
                    match spec_deserialize_argument(t) {
                        Ok(a) => Ok(args.push(a)),
                        Err(e) => Err(e),
                    }
                }
            },
        }
    }
}

/// Once a prefix of the pieces fails to parse, the whole list fails the
/// same way.
proof fn lemma_parse_args_err_extend(pieces: Seq<Seq<char>>, k: int, e: Seq<char>)
    requires
        0 <= k <= pieces.len(),
        spec_parse_args(pieces.take(k)) == Err::<Seq<ArgumentView>, Seq<char>>(e),
    ensures
        spec_parse_args(pieces) == Err::<Seq<ArgumentView>, Seq<char>>(e),
    decreases pieces.len() - k,
{
    if k < pieces.len() {
        assert(pieces.take(k + 1).drop_last() =~= pieces.take(k));
        lemma_parse_args_err_extend(pieces, k + 1, e);
    } else {
        assert(pieces.take(k) =~= pieces);
    }
}

/// Wire text read back as an RPC command: the target before the first dot,
/// the function and argument list between that dot and the first parenthesis
/// pair, trailing closing parentheses stripped.
pub open spec fn spec_deserialize_rpc(s: Seq<char>) -> Result<RpcCommandView, Seq<char>> {
    let d = find_char_spec(s, '.');
    if d < 0 {
        Err("Can't find function"@)
    } else {
        let target = s.subrange(0, d);
        let rest0 = s.skip(d + 1);
        let d2 = find_char_spec(rest0, '.');
        let rest = if d2 < 0 {
            rest0
        } else {
            rest0.subrange(0, d2)
        };
        let p = find_char_spec(rest, '(');
        if p < 0 {
            Err("Can't find args"@)
        } else {
            let fname = rest.subrange(0, p);
            let after0 = rest.skip(p + 1);
            let p2 = find_char_spec(after0, '(');
            let after = if p2 < 0 {
                after0
            } else {
                after0.subrange(0, p2)
            };
            let args_text = trim_end_char_spec(after, ')');
            match spec_deserialize_rpc_function(fname) {
                Err(e) => Err(e),
                Ok(f) => match spec_parse_args(split_char_spec(args_text, ',')) {
                    Err(e) => Err(e),
                    Ok(args) => Ok(RpcCommandView { target, function: f, args }),
                },
            }
        }
    }
}

impl Deserialized for FtSwarmRPCCommand {
    open spec fn spec_deserialize(s: Seq<char>) -> Result<RpcCommandView, Seq<char>> {
        spec_deserialize_rpc(s)
    }

    #[verifier::loop_isolation(false)]
    fn deserialize(value: &String) -> (r: Result<FtSwarmRPCCommand, String>) {
        let v = value.as_str();
        proof {
            lemma_find_char(v@, '.');
        }
        let d = match find_char(v, '.') {
            None => {
                return Err("Can't find function".to_owned());
            },
            Some(d) => d,
        };
        let len = v.unicode_len();
        let target = substring(v, 0, d);
        let rest0 = substring(v, d + 1, len);
        proof {
            assert(rest0@ =~= v@.skip(d + 1));
            lemma_find_char(rest0@, '.');
        }
        let rest = match find_char(rest0.as_str(), '.') {
            None => rest0,
            Some(d2) => substring(rest0.as_str(), 0, d2),
        };
        proof {
            lemma_find_char(rest@, '(');
        }
        let p = match find_char(rest.as_str(), '(') {
            None => {
                return Err("Can't find args".to_owned());
            },
            Some(p) => p,
        };
        let fname = substring(rest.as_str(), 0, p);
        let rest_len = rest.unicode_len();
        let after0 = substring(rest.as_str(), p + 1, rest_len);
        proof {
            assert(after0@ =~= rest@.skip(p + 1));
            lemma_find_char(after0@, '(');
        }
        let after = match find_char(after0.as_str(), '(') {
            None => after0,
            Some(p2) => substring(after0.as_str(), 0, p2),
        };
        let args_text = trim_end_char(after.as_str(), ')');
        let function = match RpcFunction::deserialize(&fname) {
            Err(e) => {
                return Err(e);
            },
            Ok(f) => f,
        };
        let pieces = split_all(args_text.as_str(), ',');
        let ghost piece_views = split_char_spec(args_text@, ',');
        let mut args: Vec<Argument> = Vec::new();
        let n = pieces.len();
        let mut i: usize = 0;
        proof {
            assert(piece_views.take(0) =~= Seq::<Seq<char>>::empty());
            assert(args.deep_view() =~= Seq::<ArgumentView>::empty());
        }
        while i < n
            invariant
                n == pieces.len(),
                i <= n,
                pieces.deep_view() == piece_views,
                spec_parse_args(piece_views.take(i as int)) == Ok::<Seq<ArgumentView>, Seq<char>>(
                    args.deep_view(),
                ),
            decreases n - i,
        {
            let ghost old_args = args.deep_view();
            proof {
                assert(piece_views.take(i + 1).drop_last() =~= piece_views.take(i as int));
                assert(piece_views.take(i + 1).last() == piece_views[i as int]);
                assert(pieces[i as int]@ == piece_views[i as int]);
            }
            let t = trim(pieces[i].as_str());
            if t.unicode_len() == 0 {
                proof {
                    assert(spec_parse_args(piece_views.take(i + 1)) == Ok::<
                        Seq<ArgumentView>,
                        Seq<char>,
                    >(old_args));
                }
            } else {
                match Argument::deserialize(&t) {
                    Ok(a) => {
                        args.push(a);
                        proof {
                            assert(args.deep_view() =~= old_args.push(a@));
                        }
                    },
                    Err(e) => {
                        proof {
                            lemma_parse_args_err_extend(piece_views, i + 1, e@);
                        }
                        return Err(e);
                    },
                }
            }
            i = i + 1;
        }
        proof {
            assert(piece_views.take(n as int) =~= piece_views);
        }
        Ok(FtSwarmRPCCommand { target, function, args })
    }
}

} // verus!
