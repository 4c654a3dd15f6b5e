//! Crate-level laws: properties that tie several functions together, proved
//! once and for all inputs.

use vstd::prelude::*;

use crate::command::argument::{spec_serialize_argument, ArgumentView};
use crate::command::direct::spec_direct_name;
use crate::command::rpc::{spec_args_text, spec_deserialize_rpc_function, spec_parse_args,
    spec_rpc_name, RpcCommandView, RpcFunction};
use crate::command::{spec_deserialize_command, spec_serialize_command, CommandView};
use crate::numtext::{int_to_dec, lemma_int_text_round_trip, lemma_int_to_dec_chars};
use crate::message_parser::rpc::{spec_decode, RPCReturnParamView};
use crate::message_parser::S2RMessageView;
use crate::message_queue::{find_waiter_spec, lemma_find_waiter, spec_deliver, spec_push,
    spec_register, spec_take_waiter, ReturnQueueView, WaiterKind, WaiterView};
use crate::swarm::spec_resolve;
use crate::text::is_digit_char;
use crate::text::{find_char_spec, is_space_char, lemma_find_char, lemma_find_char_unique,
    lemma_split_concat, lemma_split_whole, lemma_trim_of_token, split_char_spec,
    trim_end_char_spec};

verus! {

/// The wire name of every RPC function is free of the structural characters
/// of the command grammar.
proof fn lemma_rpc_name_chars(f: RpcFunction)
    ensures
        spec_rpc_name(f).len() > 0,
        forall|j: int|
            0 <= j < spec_rpc_name(f).len() ==> {
                let c = #[trigger] spec_rpc_name(f)[j];
                c != '.' && c != '(' && c != ')' && c != ',' && !is_space_char(c)
            },
{
    reveal_strlit("show");
    reveal_strlit("triggerUserEvent");
    reveal_strlit("setMicroStepMode");
    reveal_strlit("getMicroStepMode");
    reveal_strlit("subscribe");
    reveal_strlit("getIOType");
    reveal_strlit("setSensorType");
    reveal_strlit("getSensorType");
    reveal_strlit("getValue");
    reveal_strlit("getVoltage");
    reveal_strlit("getResistance");
    reveal_strlit("getKelvin");
    reveal_strlit("getCelcius");
    reveal_strlit("getFahrenheit");
    reveal_strlit("getToggle");
    reveal_strlit("onTrigger");
    reveal_strlit("getActorType");
    reveal_strlit("setActorType");
    reveal_strlit("setSpeed");
    reveal_strlit("getSpeed");
    reveal_strlit("setMotionType");
    reveal_strlit("getMotionType");
    reveal_strlit("setPosition");
    reveal_strlit("getPosition");
    reveal_strlit("setOffset");
    reveal_strlit("getOffset");
    reveal_strlit("setColor");
    reveal_strlit("getColor");
    reveal_strlit("setBrightness");
    reveal_strlit("getBrightness");
    reveal_strlit("setRegister");
    reveal_strlit("getRegister");
    assert("show"@ =~= seq!['s', 'h', 'o', 'w']);
    assert("triggerUserEvent"@ =~= seq!['t', 'r', 'i', 'g', 'g', 'e', 'r', 'U', 's', 'e', 'r', 'E', 'v', 'e', 'n', 't']);
    assert("setMicroStepMode"@ =~= seq!['s', 'e', 't', 'M', 'i', 'c', 'r', 'o', 'S', 't', 'e', 'p', 'M', 'o', 'd', 'e']);
    assert("getMicroStepMode"@ =~= seq!['g', 'e', 't', 'M', 'i', 'c', 'r', 'o', 'S', 't', 'e', 'p', 'M', 'o', 'd', 'e']);
    assert("subscribe"@ =~= seq!['s', 'u', 'b', 's', 'c', 'r', 'i', 'b', 'e']);
    assert("getIOType"@ =~= seq!['g', 'e', 't', 'I', 'O', 'T', 'y', 'p', 'e']);
    assert("setSensorType"@ =~= seq!['s', 'e', 't', 'S', 'e', 'n', 's', 'o', 'r', 'T', 'y', 'p', 'e']);
    assert("getSensorType"@ =~= seq!['g', 'e', 't', 'S', 'e', 'n', 's', 'o', 'r', 'T', 'y', 'p', 'e']);
    assert("getValue"@ =~= seq!['g', 'e', 't', 'V', 'a', 'l', 'u', 'e']);
    assert("getVoltage"@ =~= seq!['g', 'e', 't', 'V', 'o', 'l', 't', 'a', 'g', 'e']);
    assert("getResistance"@ =~= seq!['g', 'e', 't', 'R', 'e', 's', 'i', 's', 't', 'a', 'n', 'c', 'e']);
    assert("getKelvin"@ =~= seq!['g', 'e', 't', 'K', 'e', 'l', 'v', 'i', 'n']);
    assert("getCelcius"@ =~= seq!['g', 'e', 't', 'C', 'e', 'l', 'c', 'i', 'u', 's']);
    assert("getFahrenheit"@ =~= seq!['g', 'e', 't', 'F', 'a', 'h', 'r', 'e', 'n', 'h', 'e', 'i', 't']);
    assert("getToggle"@ =~= seq!['g', 'e', 't', 'T', 'o', 'g', 'g', 'l', 'e']);
    assert("onTrigger"@ =~= seq!['o', 'n', 'T', 'r', 'i', 'g', 'g', 'e', 'r']);
    assert("getActorType"@ =~= seq!['g', 'e', 't', 'A', 'c', 't', 'o', 'r', 'T', 'y', 'p', 'e']);
    assert("setActorType"@ =~= seq!['s', 'e', 't', 'A', 'c', 't', 'o', 'r', 'T', 'y', 'p', 'e']);
    assert("setSpeed"@ =~= seq!['s', 'e', 't', 'S', 'p', 'e', 'e', 'd']);
    assert("getSpeed"@ =~= seq!['g', 'e', 't', 'S', 'p', 'e', 'e', 'd']);
    assert("setMotionType"@ =~= seq!['s', 'e', 't', 'M', 'o', 't', 'i', 'o', 'n', 'T', 'y', 'p', 'e']);
    assert("getMotionType"@ =~= seq!['g', 'e', 't', 'M', 'o', 't', 'i', 'o', 'n', 'T', 'y', 'p', 'e']);
    assert("setPosition"@ =~= seq!['s', 'e', 't', 'P', 'o', 's', 'i', 't', 'i', 'o', 'n']);
    assert("getPosition"@ =~= seq!['g', 'e', 't', 'P', 'o', 's', 'i', 't', 'i', 'o', 'n']);
    assert("setOffset"@ =~= seq!['s', 'e', 't', 'O', 'f', 'f', 's', 'e', 't']);
    assert("getOffset"@ =~= seq!['g', 'e', 't', 'O', 'f', 'f', 's', 'e', 't']);
    assert("setColor"@ =~= seq!['s', 'e', 't', 'C', 'o', 'l', 'o', 'r']);
    assert("getColor"@ =~= seq!['g', 'e', 't', 'C', 'o', 'l', 'o', 'r']);
    assert("setBrightness"@ =~= seq!['s', 'e', 't', 'B', 'r', 'i', 'g', 'h', 't', 'n', 'e', 's', 's']);
    assert("getBrightness"@ =~= seq!['g', 'e', 't', 'B', 'r', 'i', 'g', 'h', 't', 'n', 'e', 's', 's']);
    assert("setRegister"@ =~= seq!['s', 'e', 't', 'R', 'e', 'g', 'i', 's', 't', 'e', 'r']);
    assert("getRegister"@ =~= seq!['g', 'e', 't', 'R', 'e', 'g', 'i', 's', 't', 'e', 'r']);
}

/// Every RPC function is read back from its own wire name.
proof fn lemma_rpc_name_round_trip(f: RpcFunction)
    ensures
        spec_deserialize_rpc_function(spec_rpc_name(f)) == Ok::<RpcFunction, Seq<char>>(f),
{
    reveal_strlit("show");
    reveal_strlit("triggerUserEvent");
    reveal_strlit("setMicroStepMode");
    reveal_strlit("getMicroStepMode");
    reveal_strlit("subscribe");
    reveal_strlit("getIOType");
    reveal_strlit("setSensorType");
    reveal_strlit("getSensorType");
    reveal_strlit("getValue");
    reveal_strlit("getVoltage");
    reveal_strlit("getResistance");
    reveal_strlit("getKelvin");
    reveal_strlit("getCelcius");
    reveal_strlit("getFahrenheit");
    reveal_strlit("getToggle");
    reveal_strlit("onTrigger");
    reveal_strlit("getActorType");
    reveal_strlit("setActorType");
    reveal_strlit("setSpeed");
    reveal_strlit("getSpeed");
    reveal_strlit("setMotionType");
    reveal_strlit("getMotionType");
    reveal_strlit("setPosition");
    reveal_strlit("getPosition");
    reveal_strlit("setOffset");
    reveal_strlit("getOffset");
    reveal_strlit("setColor");
    reveal_strlit("getColor");
    reveal_strlit("setBrightness");
    reveal_strlit("getBrightness");
    reveal_strlit("setRegister");
    reveal_strlit("getRegister");
    assert("show"@ =~= seq!['s', 'h', 'o', 'w']);
    assert("triggerUserEvent"@ =~= seq!['t', 'r', 'i', 'g', 'g', 'e', 'r', 'U', 's', 'e', 'r', 'E', 'v', 'e', 'n', 't']);
    assert("setMicroStepMode"@ =~= seq!['s', 'e', 't', 'M', 'i', 'c', 'r', 'o', 'S', 't', 'e', 'p', 'M', 'o', 'd', 'e']);
    assert("getMicroStepMode"@ =~= seq!['g', 'e', 't', 'M', 'i', 'c', 'r', 'o', 'S', 't', 'e', 'p', 'M', 'o', 'd', 'e']);
    assert("subscribe"@ =~= seq!['s', 'u', 'b', 's', 'c', 'r', 'i', 'b', 'e']);
    assert("getIOType"@ =~= seq!['g', 'e', 't', 'I', 'O', 'T', 'y', 'p', 'e']);
    assert("setSensorType"@ =~= seq!['s', 'e', 't', 'S', 'e', 'n', 's', 'o', 'r', 'T', 'y', 'p', 'e']);
    assert("getSensorType"@ =~= seq!['g', 'e', 't', 'S', 'e', 'n', 's', 'o', 'r', 'T', 'y', 'p', 'e']);
    assert("getValue"@ =~= seq!['g', 'e', 't', 'V', 'a', 'l', 'u', 'e']);
    assert("getVoltage"@ =~= seq!['g', 'e', 't', 'V', 'o', 'l', 't', 'a', 'g', 'e']);
    assert("getResistance"@ =~= seq!['g', 'e', 't', 'R', 'e', 's', 'i', 's', 't', 'a', 'n', 'c', 'e']);
    assert("getKelvin"@ =~= seq!['g', 'e', 't', 'K', 'e', 'l', 'v', 'i', 'n']);
    assert("getCelcius"@ =~= seq!['g', 'e', 't', 'C', 'e', 'l', 'c', 'i', 'u', 's']);
    assert("getFahrenheit"@ =~= seq!['g', 'e', 't', 'F', 'a', 'h', 'r', 'e', 'n', 'h', 'e', 'i', 't']);
    assert("getToggle"@ =~= seq!['g', 'e', 't', 'T', 'o', 'g', 'g', 'l', 'e']);
    assert("onTrigger"@ =~= seq!['o', 'n', 'T', 'r', 'i', 'g', 'g', 'e', 'r']);
    assert("getActorType"@ =~= seq!['g', 'e', 't', 'A', 'c', 't', 'o', 'r', 'T', 'y', 'p', 'e']);
    assert("setActorType"@ =~= seq!['s', 'e', 't', 'A', 'c', 't', 'o', 'r', 'T', 'y', 'p', 'e']);
    assert("setSpeed"@ =~= seq!['s', 'e', 't', 'S', 'p', 'e', 'e', 'd']);
    assert("getSpeed"@ =~= seq!['g', 'e', 't', 'S', 'p', 'e', 'e', 'd']);
    assert("setMotionType"@ =~= seq!['s', 'e', 't', 'M', 'o', 't', 'i', 'o', 'n', 'T', 'y', 'p', 'e']);
    assert("getMotionType"@ =~= seq!['g', 'e', 't', 'M', 'o', 't', 'i', 'o', 'n', 'T', 'y', 'p', 'e']);
    assert("setPosition"@ =~= seq!['s', 'e', 't', 'P', 'o', 's', 'i', 't', 'i', 'o', 'n']);
    assert("getPosition"@ =~= seq!['g', 'e', 't', 'P', 'o', 's', 'i', 't', 'i', 'o', 'n']);
    assert("setOffset"@ =~= seq!['s', 'e', 't', 'O', 'f', 'f', 's', 'e', 't']);
    assert("getOffset"@ =~= seq!['g', 'e', 't', 'O', 'f', 'f', 's', 'e', 't']);
    assert("setColor"@ =~= seq!['s', 'e', 't', 'C', 'o', 'l', 'o', 'r']);
    assert("getColor"@ =~= seq!['g', 'e', 't', 'C', 'o', 'l', 'o', 'r']);
    assert("setBrightness"@ =~= seq!['s', 'e', 't', 'B', 'r', 'i', 'g', 'h', 't', 'n', 'e', 's', 's']);
    assert("getBrightness"@ =~= seq!['g', 'e', 't', 'B', 'r', 'i', 'g', 'h', 't', 'n', 'e', 's', 's']);
    assert("setRegister"@ =~= seq!['s', 'e', 't', 'R', 'e', 'g', 'i', 's', 't', 'e', 'r']);
    assert("getRegister"@ =~= seq!['g', 'e', 't', 'R', 'e', 'g', 'i', 's', 't', 'e', 'r']);
    match f {
        RpcFunction::Show => {},
        RpcFunction::TriggerUserEvent => {},
        RpcFunction::SetMicroStepMode => {},
        RpcFunction::GetMicroStepMode => {},
        RpcFunction::Subscribe => {},
        RpcFunction::GetIOType => {},
        RpcFunction::SetSensorType => {},
        RpcFunction::GetSensorType => {},
        RpcFunction::GetValue => {},
        RpcFunction::GetVoltage => {},
        RpcFunction::GetResistance => {},
        RpcFunction::GetKelvin => {},
        RpcFunction::GetCelsius => {},
        RpcFunction::GetFahrenheit => {},
        RpcFunction::GetToggle => {},
        RpcFunction::OnTrigger => {},
        RpcFunction::GetActorType => {},
        RpcFunction::SetActorType => {},
        RpcFunction::SetSpeed => {},
        RpcFunction::GetSpeed => {},
        RpcFunction::SetMotionType => {},
        RpcFunction::GetMotionType => {},
        RpcFunction::SetPosition => {},
        RpcFunction::GetPosition => {},
        RpcFunction::SetOffset => {},
        RpcFunction::GetOffset => {},
        RpcFunction::SetColor => {},
        RpcFunction::GetColor => {},
        RpcFunction::SetBrightness => {},
        RpcFunction::GetBrightness => {},
        RpcFunction::SetRegister => {},
        RpcFunction::GetRegister => {},
    }
}

/// The joined argument list of integer arguments holds only digits, minus
/// signs, commas and spaces.
proof fn lemma_args_text_chars(args: Seq<ArgumentView>)
    requires
        forall|k: int| 0 <= k < args.len() ==> args[k] is Int,
    ensures
        forall|j: int|
            0 <= j < spec_args_text(args).len() ==> {
                let c = #[trigger] spec_args_text(args)[j];
                is_digit_char(c) || c == '-' || c == ',' || c == ' '
            },
    decreases args.len(),
{
    if args.len() == 0 {
    } else if args.len() == 1 {
        lemma_int_to_dec_chars(args[0]->Int_0);
    } else {
        lemma_args_text_chars(args.drop_last());
        lemma_int_to_dec_chars(args.last()->Int_0);
        let head = spec_args_text(args.drop_last());
        let tok = spec_serialize_argument(args.last());
        assert forall|j: int|
            0 <= j < spec_args_text(args).len() implies {
            let c = #[trigger] spec_args_text(args)[j];
            is_digit_char(c) || c == '-' || c == ',' || c == ' '
        } by {
            let t = spec_args_text(args);
            if j < head.len() {
                assert(t[j] == head[j]);
            } else if j == head.len() {
                assert(t[j] == ',');
            } else if j == head.len() + 1 {
                assert(t[j] == ' ');
            } else {
                assert(t[j] == tok[j - head.len() - 2]);
            }
        }
    }
}

/// The comma-split pieces of a joined integer argument list parse back to
/// exactly those arguments.
proof fn lemma_args_round_trip(args: Seq<ArgumentView>)
    requires
        forall|k: int|
            0 <= k < args.len() ==> ((#[trigger] args[k]) matches ArgumentView::Int(v)
                && i64::MIN <= v <= i64::MAX),
    ensures
        spec_parse_args(split_char_spec(spec_args_text(args), ',')) == Ok::<
            Seq<ArgumentView>,
            Seq<char>,
        >(args),
    decreases args.len(),
{
    assert(spec_parse_args(Seq::<Seq<char>>::empty()) == Ok::<Seq<ArgumentView>, Seq<char>>(
        Seq::<ArgumentView>::empty(),
    ));
    if args.len() == 0 {
        let pieces = split_char_spec(spec_args_text(args), ',');
        assert(spec_args_text(args).len() == 0);
        lemma_split_whole(spec_args_text(args), ',');
        assert(pieces =~= seq![spec_args_text(args)]);
        assert(pieces.drop_last() =~= Seq::<Seq<char>>::empty());
        lemma_trim_of_token(spec_args_text(args));
        assert(args =~= Seq::<ArgumentView>::empty());
    } else if args.len() == 1 {
        let v = args[0]->Int_0;
        let tok = int_to_dec(v);
        lemma_int_to_dec_chars(v);
        lemma_split_whole(tok, ',');
        let pieces = split_char_spec(spec_args_text(args), ',');
        assert(pieces =~= seq![tok]);
        assert(pieces.drop_last() =~= Seq::<Seq<char>>::empty());
        lemma_trim_of_token(tok);
        lemma_int_text_round_trip(v);
        assert(args =~= Seq::<ArgumentView>::empty().push(ArgumentView::Int(v)));
    } else {
        let prefix = args.drop_last();
        let v = args.last()->Int_0;
        let tok = int_to_dec(v);
        let head = spec_args_text(prefix);
        let tail = seq![' '] + tok;
        assert(spec_args_text(args) =~= head + seq![','] + tail);
        lemma_split_concat(head, tail, ',');
        lemma_int_to_dec_chars(v);
        lemma_split_whole(tail, ',');
        lemma_args_round_trip(prefix);
        let pieces = split_char_spec(spec_args_text(args), ',');
        assert(pieces =~= split_char_spec(head, ',').push(tail));
        assert(pieces.drop_last() =~= split_char_spec(head, ','));
        lemma_trim_of_token(tok);
        lemma_int_text_round_trip(v);
        assert(args =~= prefix.push(ArgumentView::Int(v)));
    }
}

/// Reading a command's wire line back yields an equivalent command, for
/// every command whose arguments are all integers and whose RPC target
/// contains no dot. The read-back direction supports only integer
/// arguments, so other argument kinds are out; a target with a dot, or the
/// custom direct command, serializes to a line that reads back differently.
#[verifier::rlimit(100)]
pub proof fn lemma_command_round_trip(c: CommandView)
    requires
        match c {
            CommandView::Direct(d) => !(d is Custom),
            CommandView::RPC(r) => {
                &&& forall|k: int|
                    0 <= k < r.args.len() ==> ((#[trigger] r.args[k]) matches ArgumentView::Int(
                        v,
                    ) && i64::MIN <= v <= i64::MAX)
                &&& forall|k: int| 0 <= k < r.target.len() ==> r.target[k] != '.'
            },
        },
    ensures
        spec_deserialize_command(spec_serialize_command(c)) == Ok::<CommandView, Seq<char>>(c),
{
    match c {
        CommandView::Direct(d) => {
            reveal_strlit("help");
            reveal_strlit("setup");
            reveal_strlit("halt");
            reveal_strlit("whoami");
            reveal_strlit("uptime");
            reveal_strlit("startCLI");
            assert("help"@ =~= seq!['h', 'e', 'l', 'p']);
            assert("setup"@ =~= seq!['s', 'e', 't', 'u', 'p']);
            assert("halt"@ =~= seq!['h', 'a', 'l', 't']);
            assert("whoami"@ =~= seq!['w', 'h', 'o', 'a', 'm', 'i']);
            assert("uptime"@ =~= seq!['u', 'p', 't', 'i', 'm', 'e']);
            assert("startCLI"@ =~= seq!['s', 't', 'a', 'r', 't', 'C', 'L', 'I']);
            let s = spec_direct_name(d);
            assert(forall|j: int| 0 <= j < s.len() ==> s[j] != '.');
            lemma_find_char(s, '.');
        },
        CommandView::RPC(r) => {
            let name = spec_rpc_name(r.function);
            let atext = spec_args_text(r.args);
            let s = spec_serialize_command(c);
            lemma_rpc_name_chars(r.function);
            lemma_args_text_chars(r.args);
            assert(s =~= r.target + seq!['.'] + (name + seq!['('] + atext + seq![')']));
            let rest0 = name + seq!['('] + atext + seq![')'];

            // the first dot is the one after the target
            assert(s[r.target.len() as int] == '.');
            assert forall|j: int| 0 <= j < r.target.len() implies s[j] != '.' by {
                assert(s[j] == r.target[j]);
            }
            lemma_find_char_unique(s, '.', r.target.len() as int);
            assert(s.subrange(0, r.target.len() as int) =~= r.target);
            assert(s.skip(r.target.len() as int + 1) =~= rest0);

            // no second dot: the function name, parentheses and integer
            // argument text are all dot-free
            assert forall|j: int| 0 <= j < rest0.len() implies rest0[j] != '.' by {
                if j < name.len() {
                    assert(rest0[j] == name[j]);
                } else if j == name.len() {
                    assert(rest0[j] == '(');
                } else if j < name.len() + 1 + atext.len() {
                    assert(rest0[j] == atext[j - name.len() - 1]);
                } else {
                    assert(rest0[j] == ')');
                }
            }
            lemma_find_char(rest0, '.');
            assert(find_char_spec(rest0, '.') == -1);

            // the first opening parenthesis is the one after the name
            assert(rest0[name.len() as int] == '(');
            assert forall|j: int| 0 <= j < name.len() implies rest0[j] != '(' by {
                assert(rest0[j] == name[j]);
            }
            lemma_find_char_unique(rest0, '(', name.len() as int);
            assert(rest0.subrange(0, name.len() as int) =~= name);
            let after0 = atext + seq![')'];
            assert(rest0.skip(name.len() as int + 1) =~= after0);

            // no second opening parenthesis
            assert forall|j: int| 0 <= j < after0.len() implies after0[j] != '(' by {
                if j < atext.len() {
                    assert(after0[j] == atext[j]);
                }
            }
            lemma_find_char(after0, '(');
            assert(find_char_spec(after0, '(') == -1);

            // stripping trailing closing parentheses recovers the argument
            // text exactly: it is empty or ends in a digit
            assert(after0.drop_last() =~= atext);
            if atext.len() > 0 {
                lemma_int_to_dec_chars(r.args.last()->Int_0);
                if r.args.len() == 1 {
                    assert(atext.last() == int_to_dec(r.args.last()->Int_0).last());
                } else {
                    assert(atext.last() == int_to_dec(r.args.last()->Int_0).last());
                }
                assert(atext.last() != ')');
            }
            assert(trim_end_char_spec(atext, ')') == atext);
            assert(trim_end_char_spec(after0, ')') == atext);

            lemma_rpc_name_round_trip(r.function);
            lemma_args_round_trip(r.args);
            assert(spec_deserialize_command(s) == Ok::<CommandView, Seq<char>>(
                CommandView::RPC(
                    RpcCommandView { target: r.target, function: r.function, args: r.args },
                ),
            ));
            assert(RpcCommandView { target: r.target, function: r.function, args: r.args } == r);
        },
    }
}

/// Two transactions run one after the other on one connection — each
/// registered, its matching response line delivered, and resolved before the
/// next begins — each receive exactly their own response. This is the
/// registration-order correlation policy under serialized use: the wire
/// protocol carries no correlation id, so this guarantee needs the pending
/// registry to be empty when each transaction starts.
pub proof fn lemma_serialized_transactions_correlate(
    q0: ReturnQueueView,
    id1: usize,
    id2: usize,
    r1: Seq<char>,
    r2: Seq<char>,
)
    requires
        q0.waiters.len() == 0,
    ensures
        ({
            let q1 = spec_register(q0, id1, WaiterKind::RpcResponseOrError);
            let q2 = spec_push(q1, S2RMessageView::RPCResponse(r1));
            let take1 = spec_take_waiter(q2, id1);
            &&& take1.1 == Some(S2RMessageView::RPCResponse(r1))
            &&& spec_resolve(take1.1->Some_0) == Ok::<RPCReturnParamView, Seq<char>>(
                spec_decode(r1),
            )
            &&& take1.0.waiters.len() == 0
            &&& {
                let q3 = spec_register(take1.0, id2, WaiterKind::RpcResponseOrError);
                let q4 = spec_push(q3, S2RMessageView::RPCResponse(r2));
                let take2 = spec_take_waiter(q4, id2);
                &&& take2.1 == Some(S2RMessageView::RPCResponse(r2))
                &&& spec_resolve(take2.1->Some_0) == Ok::<RPCReturnParamView, Seq<char>>(
                    spec_decode(r2),
                )
                &&& take2.0.waiters.len() == 0
            }
        }),
{
    let q1 = spec_register(q0, id1, WaiterKind::RpcResponseOrError);
    let q2 = spec_push(q1, S2RMessageView::RPCResponse(r1));
    let w1 = WaiterView { id: id1, kind: WaiterKind::RpcResponseOrError, slot: None };
    assert(q1.waiters =~= seq![w1]);
    assert(q2.waiters =~= seq![spec_deliver(w1, S2RMessageView::RPCResponse(r1))]);
    assert(q2.waiters[0].id == id1);
    assert(find_waiter_spec(q2.waiters, id1) == 0);
    let take1 = spec_take_waiter(q2, id1);
    assert(take1.0.waiters =~= Seq::<WaiterView>::empty());
    let q3 = spec_register(take1.0, id2, WaiterKind::RpcResponseOrError);
    let q4 = spec_push(q3, S2RMessageView::RPCResponse(r2));
    let w2 = WaiterView { id: id2, kind: WaiterKind::RpcResponseOrError, slot: None };
    assert(q3.waiters =~= seq![w2]);
    assert(q4.waiters =~= seq![spec_deliver(w2, S2RMessageView::RPCResponse(r2))]);
    assert(q4.waiters[0].id == id2);
    assert(find_waiter_spec(q4.waiters, id2) == 0);
    let take2 = spec_take_waiter(q4, id2);
    assert(take2.0.waiters =~= Seq::<WaiterView>::empty());
}

/// A pending request resolves only by delivery: while nothing has been
/// delivered into any mailbox, polling any id returns nothing and changes
/// nothing. Stopping the pump — what dropping the connection handle does —
/// therefore leaves every pending request unresolved for good.
pub proof fn lemma_undelivered_waiter_never_resolves(q: ReturnQueueView, id: usize)
    requires
        forall|j: int| 0 <= j < q.waiters.len() ==> (#[trigger] q.waiters[j]).slot is None,
    ensures
        spec_take_waiter(q, id).1 is None,
        spec_take_waiter(q, id).0 == q,
{
    lemma_find_waiter(q.waiters, id);
}

} // verus!
