//! RPC arguments. Every argument travels as one decimal token; the hardware
//! enumerations travel as their small-integer ids. A floating-point argument
//! is carried as its decimal text, which serializes unchanged.

use vstd::prelude::*;
use vstd::string::StringExecFns;

use crate::command::enums::{ActorType, MicroStepMode, MotionType, SensorType};
use crate::numtext::{dec_digits, i64_to_string, int_to_dec, int_val, is_int_token, parse_i64,
    u64_to_string};
use crate::{Deserialized, IdOf, Serialized};

verus! {

/// Mathematical model of an argument.
pub enum ArgumentView {
    Int(int),
    Float(Seq<char>),
    Bool(bool),
    ActorType(ActorType),
    SensorType(SensorType),
    MotionType(MotionType),
    MicroStepMode(MicroStepMode),
}

#[derive(Debug, Clone)]
pub enum Argument {
    Int(i64),
    Float(String),
    Bool(bool),
    ActorType(ActorType),
    SensorType(SensorType),
    MotionType(MotionType),
    MicroStepMode(MicroStepMode),
}

impl View for Argument {
    type V = ArgumentView;

    open spec fn view(&self) -> ArgumentView {
        match self {
            Argument::Int(i) => ArgumentView::Int(*i as int),
            Argument::Float(t) => ArgumentView::Float(t@),
            Argument::Bool(b) => ArgumentView::Bool(*b),
            Argument::ActorType(a) => ArgumentView::ActorType(*a),
            Argument::SensorType(s) => ArgumentView::SensorType(*s),
            Argument::MotionType(m) => ArgumentView::MotionType(*m),
            Argument::MicroStepMode(m) => ArgumentView::MicroStepMode(*m),
        }
    }
}

impl DeepView for Argument {
    type V = ArgumentView;

    open spec fn deep_view(&self) -> ArgumentView {
        self.view()
    }
}

/// The decimal token of an argument.
pub open spec fn spec_serialize_argument(a: ArgumentView) -> Seq<char> {
    match a {
        ArgumentView::Int(i) => int_to_dec(i),
        ArgumentView::Float(t) => t,
        ArgumentView::Bool(b) => if b {
            seq!['1']
        } else {
            seq!['0']
        },
        ArgumentView::ActorType(x) => dec_digits(x.spec_id() as nat),
        ArgumentView::SensorType(x) => dec_digits(x.spec_id() as nat),
        ArgumentView::MotionType(x) => dec_digits(x.spec_id() as nat),
        ArgumentView::MicroStepMode(x) => dec_digits(x.spec_id() as nat),
    }
}

/// The argument a token denotes when read back; only integer tokens are
/// recognized in this direction.
pub open spec fn spec_deserialize_argument(s: Seq<char>) -> Result<ArgumentView, Seq<char>> {
    if is_int_token(s) && i64::MIN <= int_val(s) <= i64::MAX {
        Ok(ArgumentView::Int(int_val(s)))
    } else {
        Err("Error parsing int at "@ + s)
    }
}

impl Serialized for Argument {
    open spec fn spec_serialize(&self) -> Seq<char> {
        spec_serialize_argument(self@)
    }

    fn serialize(&self) -> (r: String) {
        proof {
            reveal_strlit("0");
            reveal_strlit("1");
            assert("0"@ =~= seq!['0']);
            assert("1"@ =~= seq!['1']);
        }
        match self {
            Argument::Int(i) => i64_to_string(*i),
            Argument::Float(t) => t.clone(),
            Argument::Bool(b) => if *b {
                "1".to_owned()
            } else {
                "0".to_owned()
            },
            Argument::ActorType(x) => u64_to_string(x.id() as u64),
            Argument::SensorType(x) => u64_to_string(x.id() as u64),
            Argument::MotionType(x) => u64_to_string(x.id() as u64),
            Argument::MicroStepMode(x) => u64_to_string(x.id() as u64),
        }
    }
}

impl Deserialized for Argument {
    open spec fn spec_deserialize(s: Seq<char>) -> Result<ArgumentView, Seq<char>> {
        spec_deserialize_argument(s)
    }

    fn deserialize(value: &String) -> (r: Result<Argument, String>) {
        match parse_i64(value.as_str()) {
            Some(i) => Ok(Argument::Int(i)),
            None => {
                let mut e = "Error parsing int at ".to_owned();
                e.append(value.as_str());
                Err(e)
            },
        }
    }
}

} // verus!
