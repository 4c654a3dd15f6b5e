//! Decimal number text: parsing and printing of the integer tokens the wire
//! protocol uses, and recognition of floating-point tokens. Every argument
//! and every response value travels as such a token.

use vstd::prelude::*;
use vstd::string::*;

use crate::text::{ci_match_from, exec_ci_match_from, exec_is_digit, is_digit_char, push_char};

verus! {

/// Numeric value of an ASCII decimal digit.
pub open spec fn digit_val(c: char) -> int
    recommends
        is_digit_char(c),
{
    c as int - '0' as int
}

/// Value of a string of decimal digits, most significant first.
pub open spec fn dec_val(s: Seq<char>) -> int
    decreases s.len(),
{
    if s.len() == 0 {
        0
    } else {
        dec_val(s.drop_last()) * 10 + digit_val(s.last())
    }
}

/// 1 when `s` opens with a sign character, else 0.
pub open spec fn sign_offset(s: Seq<char>) -> int {
    if s.len() > 0 && (s[0] == '+' || s[0] == '-') {
        1
    } else {
        0
    }
}

/// An optional sign followed by one or more decimal digits: the form the
/// standard library's integer parsers accept.
pub open spec fn is_int_token(s: Seq<char>) -> bool {
    let b = sign_offset(s);
    s.len() > b && forall|k: int| b <= k < s.len() ==> is_digit_char(s[k])
}

/// An integer token without a minus sign: the form unsigned parsers accept.
pub open spec fn is_uint_token(s: Seq<char>) -> bool {
    is_int_token(s) && !(s.len() > 0 && s[0] == '-')
}

/// Mathematical value of an integer token.
pub open spec fn int_val(s: Seq<char>) -> int
    recommends
        is_int_token(s),
{
    let mag = dec_val(s.subrange(sign_offset(s), s.len() as int));
    if s.len() > 0 && s[0] == '-' {
        -mag
    } else {
        mag
    }
}

pub proof fn lemma_dec_val_nonneg(s: Seq<char>)
    requires
        forall|k: int| 0 <= k < s.len() ==> is_digit_char(s[k]),
    ensures
        dec_val(s) >= 0,
    decreases s.len(),
{
    if s.len() > 0 {
        assert forall|k: int| 0 <= k < s.drop_last().len() implies is_digit_char(
            s.drop_last()[k],
        ) by {}
        lemma_dec_val_nonneg(s.drop_last());
    }
}

/// A longer digit string never has a smaller value.
pub proof fn lemma_dec_val_extend(s: Seq<char>, from: int, to1: int, to2: int)
    requires
        0 <= from <= to1 <= to2 <= s.len(),
        forall|k: int| from <= k < to2 ==> is_digit_char(s[k]),
    ensures
        dec_val(s.subrange(from, to2)) >= dec_val(s.subrange(from, to1)),
    decreases to2 - to1,
{
    if to1 < to2 {
        lemma_dec_val_extend(s, from, to1, to2 - 1);
        let t = s.subrange(from, to2);
        assert(t.drop_last() =~= s.subrange(from, to2 - 1));
        assert forall|k: int| 0 <= k < t.len() implies is_digit_char(t[k]) by {}
        lemma_dec_val_nonneg(t.drop_last());
        assert(dec_val(t) == dec_val(t.drop_last()) * 10 + digit_val(t.last()));
        assert(dec_val(t.drop_last()) * 10 >= dec_val(t.drop_last())) by (nonlinear_arith)
            requires
                dec_val(t.drop_last()) >= 0,
        ;
    }
}

fn digit_value(c: char) -> (r: u64)
    requires
        is_digit_char(c),
    ensures
        r as int == digit_val(c),
        r < 10,
{
    (c as u32 - '0' as u32) as u64
}

/// Parses the digits of `s` from `from` to the end, returning their value
/// unless it exceeds `limit`.
fn parse_digits_bounded(s: &str, from: usize, limit: u64) -> (r: Option<u64>)
    requires
        from < s@.len(),
        forall|k: int| from <= k < s@.len() ==> is_digit_char(s@[k]),
    ensures
        match r {
            Some(v) => v as int == dec_val(s@.subrange(from as int, s@.len() as int)) && v
                <= limit,
            None => dec_val(s@.subrange(from as int, s@.len() as int)) > limit,
        },
{
    let len = s.unicode_len();
    let mut acc: u64 = 0;
    let mut i: usize = from;
    proof {
        assert(s@.subrange(from as int, from as int) =~= Seq::<char>::empty());
    }
    while i < len
        invariant
            len == s@.len(),
            from <= i <= len,
            forall|k: int| from <= k < len ==> is_digit_char(s@[k]),
            acc as int == dec_val(s@.subrange(from as int, i as int)),
            acc <= limit,
        decreases len - i,
    {
        let d = digit_value(s.get_char(i));
        let ghost cur = s@.subrange(from as int, i as int);
        let ghost next = s@.subrange(from as int, i + 1);
        proof {
            assert(next.drop_last() =~= cur);
            assert(dec_val(next) == dec_val(cur) * 10 + digit_val(next.last()));
        }
        if acc > limit / 10 || (acc == limit / 10 && d > limit % 10) {
            proof {
                assert(limit == 10 * (limit / 10) + limit % 10);
                assert(dec_val(next) > limit) by (nonlinear_arith)
                    requires
                        dec_val(next) == dec_val(cur) * 10 + digit_val(next.last()),
                        dec_val(cur) == acc as int,
                        digit_val(next.last()) == d as int,
                        acc > limit / 10 || (acc == limit / 10 && d > limit % 10),
                        limit == 10 * (limit / 10) + limit % 10,
                        d < 10,
                ;
                lemma_dec_val_extend(s@, from as int, i + 1, len as int);
            }
            return None;
        }
        proof {
            assert(acc as int * 10 + d as int <= limit) by (nonlinear_arith)
                requires
                    acc <= limit / 10,
                    acc == limit / 10 ==> d <= limit % 10,
                    limit == 10 * (limit / 10) + limit % 10,
                    d < 10,
                    acc >= 0,
                    d >= 0,
            ;
        }
        acc = acc * 10 + d;
        i = i + 1;
    }
    Some(acc)
}

/// Parses `s` as the standard library's `u64` parser does: an optional plus
/// sign, then decimal digits.
pub fn parse_u64(s: &str) -> (r: Option<u64>)
    ensures
        match r {
            Some(v) => is_uint_token(s@) && v as int == int_val(s@),
            None => !is_uint_token(s@) || int_val(s@) > u64::MAX,
        },
{
    let len = s.unicode_len();
    if len == 0 {
        return None;
    }
    let b: usize = if s.get_char(0) == '+' {
        1
    } else {
        0
    };
    if len == b {
        return None;
    }
    let mut i: usize = b;
    while i < len
        invariant
            len == s@.len(),
            b <= i <= len,
            b == sign_offset(s@) || s@[0] == '-',
            forall|k: int| b <= k < i ==> is_digit_char(s@[k]),
        decreases len - i,
    {
        if !exec_is_digit(s.get_char(i)) {
            proof {
                if s@[0] == '-' {
                    assert(!is_uint_token(s@));
                } else {
                    assert(!is_digit_char(s@[i as int]) && sign_offset(s@) <= i as int);
                    assert(!is_int_token(s@));
                }
            }
            return None;
        }
        i = i + 1;
    }
    proof {
        if s@[0] == '-' {
            assert(is_digit_char(s@[b as int]));
            assert(false);
        }
    }
    parse_digits_bounded(s, b, u64::MAX)
}

/// Magnitude of `s` past its sign, bounded by `limit`; shared by the signed
/// parsers.
fn parse_signed_magnitude(s: &str, limit_neg: u64, limit_pos: u64) -> (r: Option<(bool, u64)>)
    ensures
        match r {
            Some((neg, mag)) => {
                &&& is_int_token(s@)
                &&& neg == (s@[0] == '-')
                &&& mag as int == dec_val(s@.subrange(sign_offset(s@), s@.len() as int))
                &&& (neg ==> mag <= limit_neg)
                &&& (!neg ==> mag <= limit_pos)
            },
            None => !is_int_token(s@) || int_val(s@) > limit_pos || int_val(s@) < -(
            limit_neg as int),
        },
{
    let len = s.unicode_len();
    if len == 0 {
        return None;
    }
    let c0 = s.get_char(0);
    let neg = c0 == '-';
    let b: usize = if c0 == '+' || c0 == '-' {
        1
    } else {
        0
    };
    if len == b {
        return None;
    }
    proof {
        assert(b as int == sign_offset(s@));
    }
    let mut i: usize = b;
    while i < len
        invariant
            len == s@.len(),
            b <= i <= len,
            b as int == sign_offset(s@),
            forall|k: int| b <= k < i ==> is_digit_char(s@[k]),
        decreases len - i,
    {
        if !exec_is_digit(s.get_char(i)) {
            proof {
                assert(!is_digit_char(s@[i as int]) && sign_offset(s@) <= i as int);
                assert(!is_int_token(s@));
            }
            return None;
        }
        i = i + 1;
    }
    let limit = if neg {
        limit_neg
    } else {
        limit_pos
    };
    match parse_digits_bounded(s, b, limit) {
        Some(mag) => Some((neg, mag)),
        None => {
            proof {
                let mag = dec_val(s@.subrange(sign_offset(s@), s@.len() as int));
                lemma_dec_val_nonneg(s@.subrange(sign_offset(s@), s@.len() as int));
            }
            None
        },
    }
}

/// Parses `s` as the standard library's `i64` parser does: an optional sign,
/// then decimal digits, rejecting values outside the `i64` range.
pub fn parse_i64(s: &str) -> (r: Option<i64>)
    ensures
        match r {
            Some(v) => is_int_token(s@) && v as int == int_val(s@),
            None => !is_int_token(s@) || int_val(s@) > i64::MAX || int_val(s@) < i64::MIN,
        },
{
    match parse_signed_magnitude(s, 0x8000_0000_0000_0000u64, 0x7fff_ffff_ffff_ffffu64) {
        Some((neg, mag)) => {
            if neg {
                if mag == 0x8000_0000_0000_0000u64 {
                    Some(i64::MIN)
                } else {
                    Some(-(mag as i64))
                }
            } else {
                Some(mag as i64)
            }
        },
        None => None,
    }
}

/// Parses `s` as the standard library's `i32` parser does.
pub fn parse_i32(s: &str) -> (r: Option<i32>)
    ensures
        match r {
            Some(v) => is_int_token(s@) && v as int == int_val(s@),
            None => !is_int_token(s@) || int_val(s@) > i32::MAX || int_val(s@) < i32::MIN,
        },
{
    match parse_signed_magnitude(s, 0x8000_0000u64, 0x7fff_ffffu64) {
        Some((neg, mag)) => {
            if neg {
                if mag == 0x8000_0000u64 {
                    Some(i32::MIN)
                } else {
                    Some(-((mag as i32)))
                }
            } else {
                Some(mag as i32)
            }
        },
        None => None,
    }
}

/// The decimal digit character for `d`.
pub open spec fn digit_char(d: int) -> char {
    if d == 0 {
        '0'
    } else if d == 1 {
        '1'
    } else if d == 2 {
        '2'
    } else if d == 3 {
        '3'
    } else if d == 4 {
        '4'
    } else if d == 5 {
        '5'
    } else if d == 6 {
        '6'
    } else if d == 7 {
        '7'
    } else if d == 8 {
        '8'
    } else {
        '9'
    }
}

/// Decimal digit string of `n`, most significant first, no leading zeros.
pub open spec fn dec_digits(n: nat) -> Seq<char>
    decreases n,
{
    if n < 10 {
        seq![digit_char(n as int)]
    } else {
        dec_digits(n / 10).push(digit_char((n % 10) as int))
    }
}

/// Decimal text of an integer: a minus sign for negative values, then the
/// digits of the magnitude.
pub open spec fn int_to_dec(i: int) -> Seq<char> {
    if i < 0 {
        seq!['-'] + dec_digits((-i) as nat)
    } else {
        dec_digits(i as nat)
    }
}

/// The digit characters carry their numeric values.
pub proof fn lemma_digit_char_val(d: int)
    requires
        0 <= d < 10,
    ensures
        is_digit_char(digit_char(d)),
        digit_val(digit_char(d)) == d,
{
    assert(digit_val('0') == 0);
    assert(digit_val('1') == 1);
    assert(digit_val('2') == 2);
    assert(digit_val('3') == 3);
    assert(digit_val('4') == 4);
    assert(digit_val('5') == 5);
    assert(digit_val('6') == 6);
    assert(digit_val('7') == 7);
    assert(digit_val('8') == 8);
    assert(digit_val('9') == 9);
}

pub proof fn lemma_dec_digits(n: nat)
    ensures
        dec_digits(n).len() >= 1,
        forall|k: int| 0 <= k < dec_digits(n).len() ==> is_digit_char(#[trigger] dec_digits(n)[k]),
        dec_val(dec_digits(n)) == n,
    decreases n,
{
    if n < 10 {
        lemma_digit_char_val(n as int);
        let t = dec_digits(n);
        assert(t.drop_last() =~= Seq::<char>::empty());
        assert(dec_val(t) == dec_val(t.drop_last()) * 10 + digit_val(t.last()));
    } else {
        lemma_dec_digits(n / 10);
        lemma_digit_char_val((n % 10) as int);
        let t = dec_digits(n);
        assert(t.drop_last() =~= dec_digits(n / 10));
        assert(dec_val(t) == dec_val(t.drop_last()) * 10 + digit_val(t.last()));
        assert(n == 10 * (n / 10) + n % 10);
    }
}

fn exec_digit_char(d: u64) -> (r: char)
    requires
        d < 10,
    ensures
        r == digit_char(d as int),
{
    if d == 0 {
        '0'
    } else if d == 1 {
        '1'
    } else if d == 2 {
        '2'
    } else if d == 3 {
        '3'
    } else if d == 4 {
        '4'
    } else if d == 5 {
        '5'
    } else if d == 6 {
        '6'
    } else if d == 7 {
        '7'
    } else if d == 8 {
        '8'
    } else {
        '9'
    }
}

fn push_dec_u64(out: &mut String, n: u64)
    ensures
        final(out)@ == old(out)@ + dec_digits(n as nat),
    decreases n,
{
    if n < 10 {
        push_char(out, exec_digit_char(n));
    } else {
        push_dec_u64(out, n / 10);
        push_char(out, exec_digit_char(n % 10));
        proof {
            assert(old(out)@ + dec_digits(n as nat) =~= (old(out)@ + dec_digits(n as nat / 10)).push(
                digit_char((n % 10) as int),
            ));
        }
    }
}

/// Decimal text of `n`.
pub fn u64_to_string(n: u64) -> (r: String)
    ensures
        r@ == dec_digits(n as nat),
{
    let mut out = String::new();
    push_dec_u64(&mut out, n);
    proof {
        assert(Seq::<char>::empty() + dec_digits(n as nat) =~= dec_digits(n as nat));
    }
    out
}

/// Decimal text of `i`, as the standard library's integer formatting writes it.
pub fn i64_to_string(i: i64) -> (r: String)
    ensures
        r@ == int_to_dec(i as int),
{
    if i >= 0 {
        u64_to_string(i as u64)
    } else {
        let mag: u64 = if i == i64::MIN {
            0x8000_0000_0000_0000u64
        } else {
            (-i) as u64
        };
        let mut out = String::new();
        push_char(&mut out, '-');
        push_dec_u64(&mut out, mag);
        proof {
            assert(Seq::<char>::empty() + seq!['-'] =~= seq!['-']);
        }
        out
    }
}

/// True when `c` is an ASCII hexadecimal digit.
pub open spec fn is_hex_digit_char(c: char) -> bool {
    is_digit_char(c) || ('a' <= c && c <= 'f') || ('A' <= c && c <= 'F')
}

/// Numeric value of an ASCII hexadecimal digit.
pub open spec fn hex_digit_val(c: char) -> int
    recommends
        is_hex_digit_char(c),
{
    if is_digit_char(c) {
        c as int - '0' as int
    } else if 'a' <= c && c <= 'f' {
        c as int - 'a' as int + 10
    } else {
        c as int - 'A' as int + 10
    }
}

pub fn exec_is_hex_digit(c: char) -> (r: bool)
    ensures
        r == is_hex_digit_char(c),
{
    exec_is_digit(c) || ('a' <= c && c <= 'f') || ('A' <= c && c <= 'F')
}

pub fn hex_digit_value(c: char) -> (r: u32)
    requires
        is_hex_digit_char(c),
    ensures
        r as int == hex_digit_val(c),
        r < 16,
{
    if exec_is_digit(c) {
        c as u32 - '0' as u32
    } else if 'a' <= c && c <= 'f' {
        c as u32 - 'a' as u32 + 10
    } else {
        c as u32 - 'A' as u32 + 10
    }
}

/// First index at or past `i` that does not hold a digit.
pub open spec fn scan_digits_spec(s: Seq<char>, i: int) -> int
    recommends
        0 <= i <= s.len(),
    decreases s.len() - i when 0 <= i <= s.len()
{
    if i < s.len() && is_digit_char(s[i]) {
        scan_digits_spec(s, i + 1)
    } else {
        i
    }
}

proof fn lemma_scan_digits_at(s: Seq<char>, i: int, j: int)
    requires
        0 <= i <= j <= s.len(),
        forall|k: int| i <= k < j ==> is_digit_char(s[k]),
        j < s.len() ==> !is_digit_char(s[j]),
    ensures
        scan_digits_spec(s, i) == j,
    decreases j - i,
{
    if i < j {
        lemma_scan_digits_at(s, i + 1, j);
    }
}

fn scan_digits(s: &str, from: usize) -> (r: usize)
    requires
        from <= s@.len(),
    ensures
        from <= r <= s@.len(),
        r as int == scan_digits_spec(s@, from as int),
        forall|k: int| from <= k < r ==> is_digit_char(s@[k]),
        r < s@.len() ==> !is_digit_char(s@[r as int]),
{
    let len = s.unicode_len();
    let mut i: usize = from;
    while i < len && exec_is_digit(s.get_char(i))
        invariant
            len == s@.len(),
            from <= i <= len,
            forall|k: int| from <= k < i ==> is_digit_char(s@[k]),
        decreases len - i,
    {
        i = i + 1;
    }
    proof {
        lemma_scan_digits_at(s@, from as int, i as int);
    }
    i
}

/// From index `k`, either the end of the token or a complete exponent part:
/// `e` or `E`, an optional sign, and at least one digit reaching the end.
pub open spec fn is_exp_tail_from(s: Seq<char>, k: int) -> bool
    recommends
        0 <= k <= s.len(),
{
    ||| k == s.len()
    ||| {
        &&& k < s.len()
        &&& (s[k] == 'e' || s[k] == 'E')
        &&& {
            let m = if k + 1 < s.len() && (s[k + 1] == '+' || s[k + 1] == '-') {
                k + 2
            } else {
                k + 1
            };
            m < s.len() && forall|x: int| m <= x < s.len() ==> is_digit_char(s[x])
        }
    }
}

/// From index `b`, a decimal number: digits with an optional fraction part,
/// at least one digit overall, then an optional exponent.
pub open spec fn is_number_from(s: Seq<char>, b: int) -> bool
    recommends
        0 <= b <= s.len(),
{
    let i = scan_digits_spec(s, b);
    if i < s.len() && s[i] == '.' {
        let j = scan_digits_spec(s, i + 1);
        (i > b || j > i + 1) && is_exp_tail_from(s, j)
    } else {
        i > b && is_exp_tail_from(s, i)
    }
}

/// From index `b`, one of the words `inf`, `infinity` or `nan`, any case.
pub open spec fn is_special_float_from(s: Seq<char>, b: int) -> bool {
    ||| ci_match_from(s, b, seq!['i', 'n', 'f'])
    ||| ci_match_from(s, b, seq!['i', 'n', 'f', 'i', 'n', 'i', 't', 'y'])
    ||| ci_match_from(s, b, seq!['n', 'a', 'n'])
}

/// A token the standard library's `f32` and `f64` parsers accept: an optional
/// sign, then `inf`, `infinity` or `nan` in any case, or a decimal number
/// with optional fraction and exponent parts.
pub open spec fn is_float_token(s: Seq<char>) -> bool {
    let b = sign_offset(s);
    is_special_float_from(s, b) || is_number_from(s, b)
}

pub fn exp_tail_from(s: &str, k: usize) -> (r: bool)
    requires
        k <= s@.len(),
    ensures
        r == is_exp_tail_from(s@, k as int),
{
    let len = s.unicode_len();
    if k == len {
        return true;
    }
    let c = s.get_char(k);
    if c != 'e' && c != 'E' {
        return false;
    }
    let m: usize = if k + 1 < len && (s.get_char(k + 1) == '+' || s.get_char(k + 1) == '-') {
        k + 2
    } else {
        k + 1
    };
    if m >= len {
        return false;
    }
    let e = scan_digits(s, m);
    e == len
}

/// Recognizes the tokens that parse as floating-point numbers.
pub fn is_float_text(s: &str) -> (r: bool)
    ensures
        r == is_float_token(s@),
{
    let len = s.unicode_len();
    let b: usize = if len > 0 && (s.get_char(0) == '+' || s.get_char(0) == '-') {
        1
    } else {
        0
    };
    proof {
        assert(b as int == sign_offset(s@));
        reveal_strlit("inf");
        reveal_strlit("infinity");
        reveal_strlit("nan");
        assert("inf"@ =~= seq!['i', 'n', 'f']);
        assert("infinity"@ =~= seq!['i', 'n', 'f', 'i', 'n', 'i', 't', 'y']);
        assert("nan"@ =~= seq!['n', 'a', 'n']);
    }
    if exec_ci_match_from(s, b, "inf") || exec_ci_match_from(s, b, "infinity")
        || exec_ci_match_from(s, b, "nan") {
        return true;
    }
    let i = scan_digits(s, b);
    if i < len && s.get_char(i) == '.' {
        let j = scan_digits(s, i + 1);
        (i > b || j > i + 1) && exp_tail_from(s, j)
    } else {
        i > b && exp_tail_from(s, i)
    }
}

/// The decimal text of an integer holds only digits and a leading minus,
/// and ends in a digit.
pub proof fn lemma_int_to_dec_chars(i: int)
    ensures
        int_to_dec(i).len() > 0,
        forall|j: int|
            0 <= j < int_to_dec(i).len() ==> (is_digit_char(#[trigger] int_to_dec(i)[j])
                || int_to_dec(i)[j] == '-'),
        is_digit_char(int_to_dec(i).last()),
{
    if i < 0 {
        lemma_dec_digits((-i) as nat);
        let t = int_to_dec(i);
        assert forall|j: int|
            0 <= j < t.len() implies (is_digit_char(#[trigger] t[j]) || t[j] == '-') by {
            if j > 0 {
                assert(t[j] == dec_digits((-i) as nat)[j - 1]);
            }
        }
        assert(t.last() == dec_digits((-i) as nat).last());
    } else {
        lemma_dec_digits(i as nat);
    }
}

/// Integer tokens round-trip: printing then parsing returns the same value.
pub proof fn lemma_int_text_round_trip(i: int)
    ensures
        is_int_token(int_to_dec(i)),
        int_val(int_to_dec(i)) == i,
{
    if i < 0 {
        let t = int_to_dec(i);
        lemma_dec_digits((-i) as nat);
        assert(t[0] == '-');
        assert(sign_offset(t) == 1);
        assert(t.subrange(1, t.len() as int) =~= dec_digits((-i) as nat));
    } else {
        let t = int_to_dec(i);
        lemma_dec_digits(i as nat);
        assert(is_digit_char(t[0]));
        assert(sign_offset(t) == 0);
        assert(t.subrange(0, t.len() as int) =~= t);
    }
}

} // verus!
