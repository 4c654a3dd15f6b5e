//! Subscription payloads: a port name and a value, separated by whitespace.

use vstd::prelude::*;
use vstd::string::*;

use crate::message_parser::rpc::{spec_decode, RPCReturnParam, RPCReturnParamView};
use crate::text::{scan_space, scan_space_spec, scan_token, scan_token_spec, substring};

verus! {

/// Mathematical model of a parsed subscription payload.
pub struct SubscriptionView {
    pub port_name: Seq<char>,
    pub value: RPCReturnParamView,
}

pub struct Subscription {
    pub port_name: String,
    pub value: RPCReturnParam,
}

impl View for Subscription {
    type V = SubscriptionView;

    open spec fn view(&self) -> SubscriptionView {
        SubscriptionView { port_name: self.port_name@, value: self.value@ }
    }
}

/// The first two whitespace-separated tokens of a payload: the port name and
/// the decoded value. Fails when fewer than two tokens are present; anything
/// after the second token is ignored.
pub open spec fn spec_parse_subscription(s: Seq<char>) -> Result<SubscriptionView, ()> {
    let b1 = scan_space_spec(s, 0);
    if b1 == s.len() {
        Err(())
    } else {
        let e1 = scan_token_spec(s, b1);
        let b2 = scan_space_spec(s, e1);
        if b2 == s.len() {
            Err(())
        } else {
            let e2 = scan_token_spec(s, b2);
            Ok(
                SubscriptionView {
                    port_name: s.subrange(b1, e1),
                    value: spec_decode(s.subrange(b2, e2)),
                },
            )
        }
    }
}

impl Subscription {
    /// Splits a payload into its port name and value.
    pub fn try_from(value: String) -> (r: Result<Subscription, ()>)
        ensures
            match r {
                Ok(sub) => spec_parse_subscription(value@) == Ok::<SubscriptionView, ()>(sub@),
                Err(_) => spec_parse_subscription(value@) is Err,
            },
    {
        let v = value.as_str();
        let len = v.unicode_len();
        let b1 = scan_space(v, 0);
        if b1 == len {
            return Err(());
        }
        let e1 = scan_token(v, b1);
        let b2 = scan_space(v, e1);
        if b2 == len {
            return Err(());
        }
        let e2 = scan_token(v, b2);
        let port_name = substring(v, b1, e1);
        let token = substring(v, b2, e2);
        let parsed = RPCReturnParam::from(token);
        Ok(Subscription { port_name, value: parsed })
    }
}

} // verus!
