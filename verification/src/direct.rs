//! Interpretation of the payloads the controller returns for the direct
//! commands `whoami` and `uptime`.

use vstd::prelude::*;
use vstd::string::*;

use crate::text::{find_char, find_char_spec, lemma_find_char, lemma_rfind_char, rfind_char,
    rfind_char_spec, split_all, split_char_spec, substring, trim, trim_spec};
use crate::numtext::{int_val, is_uint_token, parse_u64};

verus! {

/// Mathematical model of a `whoami` payload.
pub struct WhoamiView {
    pub hostname: Seq<char>,
    pub id: Seq<char>,
    pub serial: Option<Seq<char>>,
}

#[derive(Debug)]
pub struct WhoamiResponse {
    pub hostname: String,
    pub id: String,
    pub serial: Option<String>,
}

impl View for WhoamiResponse {
    type V = WhoamiView;

    open spec fn view(&self) -> WhoamiView {
        WhoamiView {
            hostname: self.hostname@,
            id: self.id@,
            serial: match &self.serial {
                Some(s) => Some(s@),
                None => None,
            },
        }
    }
}

/// A `whoami` payload read as id, hostname and optional serial, the three
/// slash-separated fields; pieces past the third are ignored.
pub open spec fn spec_parse_whoami(s: Seq<char>) -> Result<WhoamiView, Seq<char>> {
    let parts = split_char_spec(s, '/');
    if parts.len() < 2 {
        Err("No hostname found"@)
    } else {
        Ok(
            WhoamiView {
                hostname: parts[1],
                id: parts[0],
                serial: if parts.len() >= 3 {
                    Some(parts[2])
                } else {
                    None
                },
            },
        )
    }
}

impl WhoamiResponse {
    /// Splits a `whoami` payload on slashes.
    pub fn try_from(value: String) -> (r: Result<WhoamiResponse, String>)
        ensures
            match r {
                Ok(w) => spec_parse_whoami(value@) == Ok::<WhoamiView, Seq<char>>(w@),
                Err(e) => spec_parse_whoami(value@) == Err::<WhoamiView, Seq<char>>(e@),
            },
    {
        let parts = split_all(value.as_str(), '/');
        if parts.len() < 2 {
            return Err("No hostname found".to_owned());
        }
        let id = parts[0].clone();
        let hostname = parts[1].clone();
        let serial = if parts.len() >= 3 {
            Some(parts[2].clone())
        } else {
            None
        };
        proof {
            let pv = parts.deep_view();
            assert(id@ == pv[0]);
            assert(hostname@ == pv[1]);
        }
        Ok(WhoamiResponse { hostname, id, serial })
    }
}

/// The seconds field of an `uptime` payload such as `uptime: 31.000 s`: the
/// text after the last colon and before the first dot that follows it,
/// trimmed and read as a decimal number of seconds.
pub open spec fn spec_parse_uptime(s: Seq<char>) -> Result<int, Seq<char>> {
    let c = rfind_char_spec(s, ':');
    let tail = if c < 0 {
        s
    } else {
        s.skip(c + 1)
    };
    let d = find_char_spec(tail, '.');
    let head = if d < 0 {
        tail
    } else {
        tail.subrange(0, d)
    };
    let tok = trim_spec(head);
    if is_uint_token(tok) && int_val(tok) <= u64::MAX {
        Ok(int_val(tok))
    } else {
        Err("Failed to parse uptime"@)
    }
}

/// Reads the uptime in whole seconds out of an `uptime` payload.
pub fn parse_uptime(value: String) -> (r: Result<u64, String>)
    ensures
        match r {
            Ok(secs) => spec_parse_uptime(value@) == Ok::<int, Seq<char>>(secs as int),
            Err(e) => spec_parse_uptime(value@) == Err::<int, Seq<char>>(e@),
        },
{
    let v = value.as_str();
    let len = v.unicode_len();
    proof {
        lemma_rfind_char(v@, ':');
    }
    let tail = match rfind_char(v, ':') {
        None => substring(v, 0, len),
        Some(c) => substring(v, c + 1, len),
    };
    proof {
        assert(tail@ =~= if rfind_char_spec(v@, ':') < 0 {
            v@
        } else {
            v@.skip(rfind_char_spec(v@, ':') + 1)
        });
        lemma_find_char(tail@, '.');
    }
    let tail_len = tail.unicode_len();
    let head = match find_char(tail.as_str(), '.') {
        None => tail,
        Some(d) => substring(tail.as_str(), 0, d),
    };
    let tok = trim(head.as_str());
    match parse_u64(tok.as_str()) {
        Some(secs) => Ok(secs),
        None => Err("Failed to parse uptime".to_owned()),
    }
}

} // verus!
