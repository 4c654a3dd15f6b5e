//! Classification of incoming wire lines. Every line the controller sends
//! maps to exactly one message kind, in a fixed priority order; the
//! classification is total and never fails.

pub mod rpc;
pub mod subscription;

use vstd::prelude::*;
use vstd::string::*;

use crate::text::{contains_seq, find_sub, lemma_find_sub, remove_first, remove_first_spec,
    starts_with, str_starts_with, substring, trim, trim_spec};

verus! {

/// Mathematical model of a classified line.
pub enum S2RMessageView {
    Log(Seq<char>),
    RPCResponse(Seq<char>),
    Subscription(Seq<char>),
    Error(Seq<char>),
    StartCLI,
}

#[derive(Debug, Clone)]
pub enum S2RMessage {
    Log(String),
    RPCResponse(String),
    Subscription(String),
    Error(String),
    StartCLI,
}

impl View for S2RMessage {
    type V = S2RMessageView;

    open spec fn view(&self) -> S2RMessageView {
        match self {
            S2RMessage::Log(s) => S2RMessageView::Log(s@),
            S2RMessage::RPCResponse(s) => S2RMessageView::RPCResponse(s@),
            S2RMessage::Subscription(s) => S2RMessageView::Subscription(s@),
            S2RMessage::Error(s) => S2RMessageView::Error(s@),
            S2RMessage::StartCLI => S2RMessageView::StartCLI,
        }
    }
}

impl DeepView for S2RMessage {
    type V = S2RMessageView;

    open spec fn deep_view(&self) -> S2RMessageView {
        self.view()
    }
}

/// The banner fragment the controller prints when its command line starts.
pub open spec fn spec_banner() -> Seq<char> {
    "@@@ ftSwarmOS CLI started"@
}

pub open spec fn spec_is_log(s: Seq<char>) -> bool {
    starts_with(s, seq!['['])
}

pub open spec fn spec_is_rpc_response(s: Seq<char>) -> bool {
    starts_with(s, seq!['R', ':', ' '])
}

pub open spec fn spec_is_subscription(s: Seq<char>) -> bool {
    starts_with(s, seq!['S', ':', ' '])
}

pub open spec fn spec_is_error(s: Seq<char>) -> bool {
    starts_with(trim_spec(s), seq!['^'])
}

/// The prefix that the controller puts before an error text.
pub open spec fn spec_error_marker() -> Seq<char> {
    "^ Error:"@
}

/// Classification of one line, first match wins: the startup banner, then a
/// log line, an RPC response, a subscription update, an error line, and as
/// fallback an RPC response carrying the whole line.
pub open spec fn spec_classify(s: Seq<char>) -> S2RMessageView {
    if contains_seq(s, spec_banner()) {
        S2RMessageView::StartCLI
    } else if spec_is_log(s) {
        S2RMessageView::Log(s)
    } else if spec_is_rpc_response(s) {
        S2RMessageView::RPCResponse(s.skip(3))
    } else if spec_is_subscription(s) {
        S2RMessageView::Subscription(s.skip(3))
    } else if spec_is_error(s) {
        S2RMessageView::Error(trim_spec(remove_first_spec(s, spec_error_marker())))
    } else {
        S2RMessageView::RPCResponse(s)
    }
}

pub fn is_log_message(message: &str) -> (r: bool)
    ensures
        r == spec_is_log(message@),
{
    proof {
        reveal_strlit("[");
        assert("["@ =~= seq!['[']);
    }
    str_starts_with(message, "[")
}

pub fn is_rpc_response(message: &str) -> (r: bool)
    ensures
        r == spec_is_rpc_response(message@),
{
    proof {
        reveal_strlit("R: ");
        assert("R: "@ =~= seq!['R', ':', ' ']);
    }
    str_starts_with(message, "R: ")
}

pub fn is_subscription_response(message: &str) -> (r: bool)
    ensures
        r == spec_is_subscription(message@),
{
    proof {
        reveal_strlit("S: ");
        assert("S: "@ =~= seq!['S', ':', ' ']);
    }
    str_starts_with(message, "S: ")
}

pub fn is_error_message(message: &str) -> (r: bool)
    ensures
        r == spec_is_error(message@),
{
    proof {
        reveal_strlit("^");
        assert("^"@ =~= seq!['^']);
    }
    let t = trim(message);
    str_starts_with(t.as_str(), "^")
}

impl S2RMessage {
    /// Classifies one line of wire text, per the fixed priority order.
    pub fn from(value: String) -> (r: S2RMessage)
        ensures
            r@ == spec_classify(value@),
    {
        let v = value.as_str();
        proof {
            lemma_find_sub(v@, "@@@ ftSwarmOS CLI started"@);
        }
        if find_sub(v, "@@@ ftSwarmOS CLI started").is_some() {
            return S2RMessage::StartCLI;
        }
        let len = v.unicode_len();
        if is_log_message(v) {
            S2RMessage::Log(value)
        } else if is_rpc_response(v) {
            let body = substring(v, 3, len);
            S2RMessage::RPCResponse(body)
        } else if is_subscription_response(v) {
            let body = substring(v, 3, len);
            S2RMessage::Subscription(body)
        } else if is_error_message(v) {
            let stripped = remove_first(v, "^ Error:");
            S2RMessage::Error(trim(stripped.as_str()))
        } else {
            S2RMessage::RPCResponse(value)
        }
    }

    /// A copy whose view equals this message's view.
    pub fn dup(&self) -> (r: S2RMessage)
        ensures
            r@ == self@,
    {
        match self {
            S2RMessage::Log(s) => S2RMessage::Log(s.clone()),
            S2RMessage::RPCResponse(s) => S2RMessage::RPCResponse(s.clone()),
            S2RMessage::Subscription(s) => S2RMessage::Subscription(s.clone()),
            S2RMessage::Error(s) => S2RMessage::Error(s.clone()),
            S2RMessage::StartCLI => S2RMessage::StartCLI,
        }
    }
}

} // verus!
