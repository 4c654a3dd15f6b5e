//! RGB color values for the controller's LEDs, and the color texts the
//! library reads: `#rrggbb` hex triples, `r,g,b` decimal triples, and a few
//! color names.

use vstd::prelude::*;
use vstd::string::*;

use crate::numtext::{exec_is_hex_digit, hex_digit_val, hex_digit_value, int_val, is_hex_digit_char,
    is_int_token, parse_i32};
use crate::text::{ci_match_from, exec_ci_match_from, split_all, split_char_spec, trim_start_char,
    trim_start_char_spec};

verus! {

#[derive(Clone, Debug, PartialEq, Eq, Hash, Structural)]
pub struct LedColor {
    pub red: i32,
    pub green: i32,
    pub blue: i32,
}

/// Value of the two hex digits of `s` at `i` and `i + 1`.
pub open spec fn hex_pair_val(s: Seq<char>, i: int) -> int
    recommends
        0 <= i && i + 2 <= s.len(),
{
    hex_digit_val(s[i]) * 16 + hex_digit_val(s[i + 1])
}

/// The color denoted by a text, if any: after a leading `#` (repeats
/// stripped), six hex digits; otherwise three comma-separated decimal
/// values; otherwise one of eight color names, ignoring ASCII case.
pub open spec fn spec_parse_color(s: Seq<char>) -> Option<(int, int, int)> {
    if s.len() > 0 && s[0] == '#' {
        let h = trim_start_char_spec(s, '#');
        if h.len() >= 6 && (forall|j: int| 0 <= j < 6 ==> is_hex_digit_char(h[j])) {
            Some((hex_pair_val(h, 0), hex_pair_val(h, 2), hex_pair_val(h, 4)))
        } else {
            None
        }
    } else if split_char_spec(s, ',').len() >= 3 {
        let ps = split_char_spec(s, ',');
        if is_int_token(ps[0]) && i32::MIN <= int_val(ps[0]) <= i32::MAX && is_int_token(ps[1])
            && i32::MIN <= int_val(ps[1]) <= i32::MAX && is_int_token(ps[2]) && i32::MIN <= int_val(
            ps[2],
        ) <= i32::MAX {
            Some((int_val(ps[0]), int_val(ps[1]), int_val(ps[2])))
        } else {
            None
        }
    } else if ci_match_from(s, 0, seq!['r', 'e', 'd']) {
        Some((255, 0, 0))
    } else if ci_match_from(s, 0, seq!['g', 'r', 'e', 'e', 'n']) {
        Some((0, 255, 0))
    } else if ci_match_from(s, 0, seq!['b', 'l', 'u', 'e']) {
        Some((0, 0, 255))
    } else if ci_match_from(s, 0, seq!['y', 'e', 'l', 'l', 'o', 'w']) {
        Some((255, 255, 0))
    } else if ci_match_from(s, 0, seq!['c', 'y', 'a', 'n']) {
        Some((0, 255, 255))
    } else if ci_match_from(s, 0, seq!['m', 'a', 'g', 'e', 'n', 't', 'a']) {
        Some((255, 0, 255))
    } else if ci_match_from(s, 0, seq!['w', 'h', 'i', 't', 'e']) {
        Some((255, 255, 255))
    } else if ci_match_from(s, 0, seq!['b', 'l', 'a', 'c', 'k']) {
        Some((0, 0, 0))
    } else {
        None
    }
}

impl LedColor {
    pub fn new(red: i32, green: i32, blue: i32) -> (r: LedColor)
        ensures
            r.red == red,
            r.green == green,
            r.blue == blue,
    {
        LedColor { red, green, blue }
    }

    pub fn rgb(red: i32, green: i32, blue: i32) -> (r: LedColor)
        ensures
            r.red == red,
            r.green == green,
            r.blue == blue,
    {
        LedColor::new(red, green, blue)
    }

    pub fn red() -> (r: LedColor)
        ensures
            r == (LedColor { red: 255, green: 0, blue: 0 }),
    {
        LedColor::new(255, 0, 0)
    }

    pub fn green() -> (r: LedColor)
        ensures
            r == (LedColor { red: 0, green: 255, blue: 0 }),
    {
        LedColor::new(0, 255, 0)
    }

    pub fn blue() -> (r: LedColor)
        ensures
            r == (LedColor { red: 0, green: 0, blue: 255 }),
    {
        LedColor::new(0, 0, 255)
    }

    pub fn yellow() -> (r: LedColor)
        ensures
            r == (LedColor { red: 255, green: 255, blue: 0 }),
    {
        LedColor::new(255, 255, 0)
    }

    pub fn cyan() -> (r: LedColor)
        ensures
            r == (LedColor { red: 0, green: 255, blue: 255 }),
    {
        LedColor::new(0, 255, 255)
    }

    pub fn magenta() -> (r: LedColor)
        ensures
            r == (LedColor { red: 255, green: 0, blue: 255 }),
    {
        LedColor::new(255, 0, 255)
    }

    pub fn white() -> (r: LedColor)
        ensures
            r == (LedColor { red: 255, green: 255, blue: 255 }),
    {
        LedColor::new(255, 255, 255)
    }

    pub fn off() -> (r: LedColor)
        ensures
            r == (LedColor { red: 0, green: 0, blue: 0 }),
    {
        LedColor::new(0, 0, 0)
    }

    /// Reads a color text; `None` where the text denotes no color.
    #[verifier::loop_isolation(false)]
    pub fn parse(value: &str) -> (r: Option<LedColor>)
        ensures
            match r {
                Some(c) => spec_parse_color(value@) == Some(
                    (c.red as int, c.green as int, c.blue as int),
                ),
                None => spec_parse_color(value@) is None,
            },
    {
        let len = value.unicode_len();
        if len > 0 && value.get_char(0) == '#' {
            let h = trim_start_char(value, '#');
            let hlen = h.unicode_len();
            if hlen < 6 {
                return None;
            }
            let mut j: usize = 0;
            while j < 6
                invariant
                    hlen == h@.len(),
                    6 <= hlen,
                    j <= 6,
                    forall|k: int| 0 <= k < j ==> is_hex_digit_char(h@[k]),
                decreases 6 - j,
            {
                if !exec_is_hex_digit(h.get_char(j)) {
                    return None;
                }
                j = j + 1;
            }
            let red = hex_digit_value(h.get_char(0)) * 16 + hex_digit_value(h.get_char(1));
            let green = hex_digit_value(h.get_char(2)) * 16 + hex_digit_value(h.get_char(3));
            let blue = hex_digit_value(h.get_char(4)) * 16 + hex_digit_value(h.get_char(5));
            return Some(LedColor::new(red as i32, green as i32, blue as i32));
        }
        let parts = split_all(value, ',');
        if parts.len() >= 3 {
            let r0 = parse_i32(parts[0].as_str());
            let r1 = parse_i32(parts[1].as_str());
            let r2 = parse_i32(parts[2].as_str());
            proof {
                assert(parts.deep_view()[0] == parts@[0]@);
                assert(parts.deep_view()[1] == parts@[1]@);
                assert(parts.deep_view()[2] == parts@[2]@);
            }
            return match (r0, r1, r2) {
                (Some(red), Some(green), Some(blue)) => Some(LedColor::new(red, green, blue)),
                _ => None,
            };
        }
        proof {
            reveal_strlit("red");
            reveal_strlit("green");
            reveal_strlit("blue");
            reveal_strlit("yellow");
            reveal_strlit("cyan");
            reveal_strlit("magenta");
            reveal_strlit("white");
            reveal_strlit("black");
            assert("red"@ =~= seq!['r', 'e', 'd']);
            assert("green"@ =~= seq!['g', 'r', 'e', 'e', 'n']);
            assert("blue"@ =~= seq!['b', 'l', 'u', 'e']);
            assert("yellow"@ =~= seq!['y', 'e', 'l', 'l', 'o', 'w']);
            assert("cyan"@ =~= seq!['c', 'y', 'a', 'n']);
            assert("magenta"@ =~= seq!['m', 'a', 'g', 'e', 'n', 't', 'a']);
            assert("white"@ =~= seq!['w', 'h', 'i', 't', 'e']);
            assert("black"@ =~= seq!['b', 'l', 'a', 'c', 'k']);
        }
        if exec_ci_match_from(value, 0, "red") {
            Some(LedColor::new(255, 0, 0))
        } else if exec_ci_match_from(value, 0, "green") {
            Some(LedColor::new(0, 255, 0))
        } else if exec_ci_match_from(value, 0, "blue") {
            Some(LedColor::new(0, 0, 255))
        } else if exec_ci_match_from(value, 0, "yellow") {
            Some(LedColor::new(255, 255, 0))
        } else if exec_ci_match_from(value, 0, "cyan") {
            Some(LedColor::new(0, 255, 255))
        } else if exec_ci_match_from(value, 0, "magenta") {
            Some(LedColor::new(255, 0, 255))
        } else if exec_ci_match_from(value, 0, "white") {
            Some(LedColor::new(255, 255, 255))
        } else if exec_ci_match_from(value, 0, "black") {
            Some(LedColor::new(0, 0, 0))
        } else {
            None
        }
    }

    /// The single integer argument an LED color travels as:
    /// the red, green and blue fields packed into one value bitwise.
    pub fn to_i64(self) -> (r: i64)
        ensures
            r == (((self.red << 16) | (self.green << 8) | self.blue) as i64),
    {
        ((self.red << 16u32) | (self.green << 8u32) | self.blue) as i64
    }
}

} // verus!
