//! Typed decoding of an RPC response or subscription payload. The fallback
//! order is fixed: integer, then floating point, then the word `ok`, then
//! opaque text; a numeric token is never taken for plain text.

use vstd::prelude::*;

use crate::numtext::{int_val, is_float_token, is_float_text, is_int_token, parse_i32};
use crate::text::{ci_match_from, exec_ci_match_from};

verus! {

/// True when the payload spells `ok`, ignoring ASCII case.
pub open spec fn spec_is_ok_token(s: Seq<char>) -> bool {
    ci_match_from(s, 0, seq!['o', 'k'])
}

pub fn parse_result(value: &str) -> (r: Result<(), ()>)
    ensures
        r is Ok <==> spec_is_ok_token(value@),
{
    proof {
        reveal_strlit("ok");
        assert("ok"@ =~= seq!['o', 'k']);
    }
    if exec_ci_match_from(value, 0, "ok") {
        Ok(())
    } else {
        Err(())
    }
}

/// Mathematical model of a decoded payload.
pub enum RPCReturnParamView {
    Okay,
    Int(int),
    Float(Seq<char>),
    String(Seq<char>),
}

#[derive(Debug, Clone)]
pub enum RPCReturnParam {
    Okay,
    Int(i32),
    Float(String),
    String(String),
}

impl View for RPCReturnParam {
    type V = RPCReturnParamView;

    open spec fn view(&self) -> RPCReturnParamView {
        match self {
            RPCReturnParam::Okay => RPCReturnParamView::Okay,
            RPCReturnParam::Int(i) => RPCReturnParamView::Int(*i as int),
            RPCReturnParam::Float(t) => RPCReturnParamView::Float(t@),
            RPCReturnParam::String(t) => RPCReturnParamView::String(t@),
        }
    }
}

/// The decoding of a payload: an integer token in `i32` range becomes `Int`,
/// any other floating-point token becomes `Float` carrying its text, the word
/// `ok` in any case becomes `Ok`, and everything else stays opaque text.
pub open spec fn spec_decode(s: Seq<char>) -> RPCReturnParamView {
    if is_int_token(s) && i32::MIN <= int_val(s) <= i32::MAX {
        RPCReturnParamView::Int(int_val(s))
    } else if is_float_token(s) {
        RPCReturnParamView::Float(s)
    } else if spec_is_ok_token(s) {
        RPCReturnParamView::Okay
    } else {
        RPCReturnParamView::String(s)
    }
}

impl RPCReturnParam {
    /// Decodes a payload per the fixed fallback order.
    pub fn from(value: String) -> (r: RPCReturnParam)
        ensures
            r@ == spec_decode(value@),
    {
        match parse_i32(value.as_str()) {
            Some(i) => RPCReturnParam::Int(i),
            None => {
                if is_float_text(value.as_str()) {
                    RPCReturnParam::Float(value)
                } else {
                    match parse_result(value.as_str()) {
                        Ok(_) => RPCReturnParam::Okay,
                        Err(_) => RPCReturnParam::String(value),
                    }
                }
            },
        }
    }

    /// A copy whose view equals this value's view.
    pub fn dup(&self) -> (r: RPCReturnParam)
        ensures
            r@ == self@,
    {
        match self {
            RPCReturnParam::Okay => RPCReturnParam::Okay,
            RPCReturnParam::Int(i) => RPCReturnParam::Int(*i),
            RPCReturnParam::Float(t) => RPCReturnParam::Float(t.clone()),
            RPCReturnParam::String(t) => RPCReturnParam::String(t.clone()),
        }
    }

    pub fn as_int(&self) -> (r: Option<i32>)
        ensures
            match r {
                Some(i) => self@ == RPCReturnParamView::Int(i as int),
                None => !(self@ is Int),
            },
    {
        match self {
            RPCReturnParam::Int(i) => Some(*i),
            _ => None,
        }
    }

    /// The decimal text of a floating-point payload.
    pub fn as_float(&self) -> (r: Option<&String>)
        ensures
            match r {
                Some(t) => self@ == RPCReturnParamView::Float(t@),
                None => !(self@ is Float),
            },
    {
        match self {
            RPCReturnParam::Float(t) => Some(t),
            _ => None,
        }
    }

    pub fn as_string(&self) -> (r: Option<&String>)
        ensures
            match r {
                Some(t) => self@ == RPCReturnParamView::String(t@),
                None => !(self@ is String),
            },
    {
        match self {
            RPCReturnParam::String(t) => Some(t),
            _ => None,
        }
    }

    pub fn as_ok(&self) -> (r: Option<()>)
        ensures
            r is Some <==> self@ is Okay,
    {
        match self {
            RPCReturnParam::Okay => Some(()),
            _ => None,
        }
    }
}

} // verus!
