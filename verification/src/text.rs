//! Character-level text utilities: the wire protocol is line oriented, and
//! every parser in this crate is specified over `Seq<char>` views of strings.

use vstd::prelude::*;
use vstd::string::*;

verus! {

/// ASCII whitespace, the character class used when wire text is trimmed
/// or split into tokens.
pub open spec fn is_space_char(c: char) -> bool {
    c == ' ' || c == '\t' || c == '\n' || c == '\r' || c == '\u{b}' || c == '\u{c}'
}

/// True when `c` is an ASCII decimal digit.
pub open spec fn is_digit_char(c: char) -> bool {
    '0' <= c && c <= '9'
}

pub fn exec_is_space(c: char) -> (r: bool)
    ensures
        r == is_space_char(c),
{
    c == ' ' || c == '\t' || c == '\n' || c == '\r' || c == '\u{b}' || c == '\u{c}'
}

pub fn exec_is_digit(c: char) -> (r: bool)
    ensures
        r == is_digit_char(c),
{
    '0' <= c && c <= '9'
}

/// True when `c` equals the lowercase ASCII letter `p`, ignoring case.
pub open spec fn eq_ci_char(c: char, p: char) -> bool {
    c == p || ('a' <= p <= 'z' && c as int == p as int - 32)
}

/// True when the characters of `s` from `b` to the end spell `pat`
/// (a lowercase ASCII word), ignoring case.
pub open spec fn ci_match_from(s: Seq<char>, b: int, pat: Seq<char>) -> bool {
    &&& 0 <= b <= s.len()
    &&& s.len() - b == pat.len()
    &&& forall|x: int| 0 <= x < pat.len() ==> eq_ci_char(s[b + x], pat[x])
}

pub fn exec_eq_ci_char(c: char, p: char) -> (r: bool)
    ensures
        r == eq_ci_char(c, p),
{
    c == p || ('a' <= p && p <= 'z' && c as u32 + 32 == p as u32)
}

pub fn exec_ci_match_from(s: &str, b: usize, pat: &str) -> (r: bool)
    requires
        b <= s@.len(),
    ensures
        r == ci_match_from(s@, b as int, pat@),
{
    let slen = s.unicode_len();
    let plen = pat.unicode_len();
    if slen - b != plen {
        return false;
    }
    let mut x: usize = 0;
    while x < plen
        invariant
            slen == s@.len(),
            plen == pat@.len(),
            b <= slen,
            slen - b == plen,
            x <= plen,
            forall|j: int| 0 <= j < x ==> eq_ci_char(s@[b + j], pat@[j]),
        decreases plen - x,
    {
        if !exec_eq_ci_char(s.get_char(b + x), pat.get_char(x)) {
            return false;
        }
        x = x + 1;
    }
    true
}

/// Relies on String::push: appends the given character to the string.
#[verifier::external_body]
pub fn push_char(s: &mut String, c: char)
    ensures
        final(s)@ == old(s)@ + seq![c],
{
    s.push(c);
}

/// True when `p` is a prefix of `s`.
pub open spec fn starts_with(s: Seq<char>, p: Seq<char>) -> bool {
    p.len() <= s.len() && s.subrange(0, p.len() as int) == p
}

pub fn str_eq(a: &str, b: &str) -> (r: bool)
    ensures
        r == (a@ == b@),
{
    let alen = a.unicode_len();
    let blen = b.unicode_len();
    if alen != blen {
        return false;
    }
    let mut i: usize = 0;
    while i < alen
        invariant
            alen == a@.len(),
            blen == b@.len(),
            alen == blen,
            i <= alen,
            forall|j: int| 0 <= j < i ==> a@[j] == b@[j],
        decreases alen - i,
    {
        if a.get_char(i) != b.get_char(i) {
            return false;
        }
        i = i + 1;
    }
    proof {
        assert(a@ =~= b@);
    }
    true
}

pub fn str_starts_with(s: &str, p: &str) -> (r: bool)
    ensures
        r == starts_with(s@, p@),
{
    let slen = s.unicode_len();
    let plen = p.unicode_len();
    if plen > slen {
        return false;
    }
    let mut i: usize = 0;
    while i < plen
        invariant
            slen == s@.len(),
            plen == p@.len(),
            plen <= slen,
            i <= plen,
            forall|j: int| 0 <= j < i ==> s@[j] == p@[j],
        decreases plen - i,
    {
        if s.get_char(i) != p.get_char(i) {
            return false;
        }
        i = i + 1;
    }
    proof {
        assert(s@.subrange(0, p@.len() as int) =~= p@);
    }
    true
}

/// Index of the first occurrence of `c` in `s`, or -1 when absent.
pub open spec fn find_char_spec(s: Seq<char>, c: char) -> int
    decreases s.len(),
{
    if s.len() == 0 {
        -1
    } else if s[0] == c {
        0
    } else {
        let r = find_char_spec(s.skip(1), c);
        if r < 0 {
            -1
        } else {
            r + 1
        }
    }
}

pub proof fn lemma_find_char(s: Seq<char>, c: char)
    ensures
        ({
            let r = find_char_spec(s, c);
            &&& r == -1 || (0 <= r < s.len())
            &&& r == -1 ==> forall|j: int| 0 <= j < s.len() ==> s[j] != c
            &&& r >= 0 ==> s[r] == c && (forall|j: int| 0 <= j < r ==> s[j] != c)
        }),
    decreases s.len(),
{
    if s.len() == 0 {
    } else if s[0] == c {
    } else {
        lemma_find_char(s.skip(1), c);
        assert forall|j: int| 1 <= j < s.len() implies s[j] == s.skip(1)[j - 1] by {}
    }
}

pub fn find_char(s: &str, c: char) -> (r: Option<usize>)
    ensures
        match r {
            Some(i) => find_char_spec(s@, c) == i,
            None => find_char_spec(s@, c) == -1,
        },
{
    proof {
        lemma_find_char(s@, c);
    }
    let len = s.unicode_len();
    let mut i: usize = 0;
    while i < len
        invariant
            len == s@.len(),
            i <= len,
            forall|j: int| 0 <= j < i ==> s@[j] != c,
        decreases len - i,
    {
        if s.get_char(i) == c {
            proof {
                lemma_find_char_unique(s@, c, i as int);
            }
            return Some(i);
        }
        i = i + 1;
    }
    None
}

/// The first occurrence index determines `find_char_spec`.
pub proof fn lemma_find_char_unique(s: Seq<char>, c: char, i: int)
    requires
        0 <= i < s.len(),
        s[i] == c,
        forall|j: int| 0 <= j < i ==> s[j] != c,
    ensures
        find_char_spec(s, c) == i,
    decreases s.len(),
{
    if i == 0 {
    } else {
        assert forall|j: int| 0 <= j < s.skip(1).len() implies s.skip(1)[j] == s[j + 1] by {}
        lemma_find_char_unique(s.skip(1), c, i - 1);
    }
}

/// Index of the last occurrence of `c` in `s`, or -1 when absent.
pub open spec fn rfind_char_spec(s: Seq<char>, c: char) -> int
    decreases s.len(),
{
    if s.len() == 0 {
        -1
    } else if s.last() == c {
        s.len() - 1
    } else {
        rfind_char_spec(s.drop_last(), c)
    }
}

pub proof fn lemma_rfind_char(s: Seq<char>, c: char)
    ensures
        ({
            let r = rfind_char_spec(s, c);
            &&& r == -1 || (0 <= r < s.len())
            &&& r == -1 ==> forall|j: int| 0 <= j < s.len() ==> s[j] != c
            &&& r >= 0 ==> s[r] == c && (forall|j: int| r < j < s.len() ==> s[j] != c)
        }),
    decreases s.len(),
{
    if s.len() == 0 {
    } else if s.last() == c {
    } else {
        lemma_rfind_char(s.drop_last(), c);
        assert forall|j: int| 0 <= j < s.drop_last().len() implies s.drop_last()[j] == s[j] by {}
    }
}

pub fn rfind_char(s: &str, c: char) -> (r: Option<usize>)
    ensures
        match r {
            Some(i) => rfind_char_spec(s@, c) == i,
            None => rfind_char_spec(s@, c) == -1,
        },
{
    proof {
        lemma_rfind_char(s@, c);
    }
    let len = s.unicode_len();
    let mut i: usize = len;
    while i > 0
        invariant
            len == s@.len(),
            i <= len,
            forall|j: int| i <= j < len ==> s@[j] != c,
        decreases i,
    {
        i = i - 1;
        if s.get_char(i) == c {
            proof {
                lemma_rfind_char_unique(s@, c, i as int);
            }
            return Some(i);
        }
    }
    None
}

pub proof fn lemma_rfind_char_unique(s: Seq<char>, c: char, i: int)
    requires
        0 <= i < s.len(),
        s[i] == c,
        forall|j: int| i < j < s.len() ==> s[j] != c,
    ensures
        rfind_char_spec(s, c) == i,
    decreases s.len(),
{
    if i == s.len() - 1 {
    } else {
        assert forall|j: int| 0 <= j < s.drop_last().len() implies s.drop_last()[j] == s[j] by {}
        lemma_rfind_char_unique(s.drop_last(), c, i);
    }
}

/// Owned copy of the character range `[from, to)` of `s`.
pub fn substring(s: &str, from: usize, to: usize) -> (r: String)
    requires
        from <= to <= s@.len(),
    ensures
        r@ == s@.subrange(from as int, to as int),
{
    s.substring_char(from, to).to_owned()
}

/// True when `p` occurs in `s` starting at index `i`.
pub open spec fn matches_at(s: Seq<char>, p: Seq<char>, i: int) -> bool {
    0 <= i && i + p.len() <= s.len() && s.subrange(i, i + p.len() as int) == p
}

/// True when `p` occurs somewhere in `s`.
pub open spec fn contains_seq(s: Seq<char>, p: Seq<char>) -> bool {
    exists|i: int| matches_at(s, p, i)
}

/// Index of the first occurrence of `p` in `s`, or -1 when absent.
pub open spec fn find_sub_spec(s: Seq<char>, p: Seq<char>) -> int
    decreases s.len(),
{
    if p.len() > s.len() {
        -1
    } else if s.subrange(0, p.len() as int) == p {
        0
    } else if s.len() == 0 {
        -1
    } else {
        let r = find_sub_spec(s.skip(1), p);
        if r < 0 {
            -1
        } else {
            r + 1
        }
    }
}

/// Occurrences of `p` in `s` shift by one under `s.skip(1)`.
proof fn lemma_matches_at_skip(s: Seq<char>, p: Seq<char>, i: int)
    requires
        s.len() > 0,
        1 <= i,
    ensures
        matches_at(s, p, i) == matches_at(s.skip(1), p, i - 1),
{
    if matches_at(s, p, i) {
        assert(s.skip(1).subrange(i - 1, i - 1 + p.len() as int) =~= s.subrange(
            i,
            i + p.len() as int,
        ));
    } else if matches_at(s.skip(1), p, i - 1) {
        assert(s.subrange(i, i + p.len() as int) =~= s.skip(1).subrange(
            i - 1,
            i - 1 + p.len() as int,
        ));
    }
}

pub proof fn lemma_find_sub(s: Seq<char>, p: Seq<char>)
    ensures
        ({
            let r = find_sub_spec(s, p);
            &&& r == -1 || (0 <= r && r + p.len() <= s.len())
            &&& r == -1 ==> !contains_seq(s, p)
            &&& r >= 0 ==> matches_at(s, p, r) && (forall|j: int| 0 <= j < r ==> !matches_at(s, p, j))
        }),
    decreases s.len(),
{
    if p.len() > s.len() {
        assert forall|i: int| !matches_at(s, p, i) by {}
    } else if s.subrange(0, p.len() as int) == p {
    } else if s.len() == 0 {
        assert(p.len() == 0 && s.len() == 0);
        assert(s.subrange(0, p.len() as int) =~= p);
    } else {
        lemma_find_sub(s.skip(1), p);
        assert forall|i: int| 1 <= i implies matches_at(s, p, i) == matches_at(s.skip(1), p, i - 1) by {
            lemma_matches_at_skip(s, p, i);
        }
        let r = find_sub_spec(s, p);
        if find_sub_spec(s.skip(1), p) == -1 {
            assert forall|i: int| !matches_at(s, p, i) by {
                if 1 <= i {
                    lemma_matches_at_skip(s, p, i);
                }
            }
        }
    }
}

pub proof fn lemma_find_sub_unique(s: Seq<char>, p: Seq<char>, i: int)
    requires
        matches_at(s, p, i),
        forall|j: int| 0 <= j < i ==> !matches_at(s, p, j),
    ensures
        find_sub_spec(s, p) == i,
    decreases s.len(),
{
    if i == 0 {
        assert(s.subrange(0, p.len() as int) =~= p);
    } else {
        assert(s.len() > 0);
        assert(!matches_at(s, p, 0));
        assert(s.subrange(0, p.len() as int) != p);
        lemma_matches_at_skip(s, p, i);
        assert forall|j: int| 0 <= j < i - 1 implies !matches_at(s.skip(1), p, j) by {
            lemma_matches_at_skip(s, p, j + 1);
        }
        lemma_find_sub_unique(s.skip(1), p, i - 1);
    }
}

/// True when `p` occurs in `s` at exactly index `i` (checked character by character).
fn check_match_at(s: &str, p: &str, i: usize) -> (r: bool)
    requires
        i + p@.len() <= s@.len(),
    ensures
        r == matches_at(s@, p@, i as int),
{
    let slen = s.unicode_len();
    let plen = p.unicode_len();
    let mut k: usize = 0;
    while k < plen
        invariant
            slen == s@.len(),
            plen == p@.len(),
            i + plen <= slen,
            k <= plen,
            forall|j: int| 0 <= j < k ==> s@[i + j] == p@[j],
        decreases plen - k,
    {
        if s.get_char(i + k) != p.get_char(k) {
            assert(s@.subrange(i as int, i + p@.len() as int)[k as int] != p@[k as int]);
            return false;
        }
        k = k + 1;
    }
    proof {
        assert(s@.subrange(i as int, i + p@.len() as int) =~= p@);
    }
    true
}

pub fn find_sub(s: &str, p: &str) -> (r: Option<usize>)
    ensures
        match r {
            Some(i) => find_sub_spec(s@, p@) == i,
            None => find_sub_spec(s@, p@) == -1,
        },
{
    proof {
        lemma_find_sub(s@, p@);
    }
    let slen = s.unicode_len();
    let plen = p.unicode_len();
    if plen > slen {
        return None;
    }
    if plen == 0 {
        proof {
            assert(s@.subrange(0, 0) =~= p@);
            lemma_find_sub_unique(s@, p@, 0);
        }
        return Some(0);
    }
    let mut i: usize = 0;
    while i <= slen - plen
        invariant
            slen == s@.len(),
            plen == p@.len(),
            0 < plen <= slen,
            i <= slen - plen + 1,
            forall|j: int| 0 <= j < i ==> !matches_at(s@, p@, j),
        decreases slen - plen - i + 1,
    {
        if check_match_at(s, p, i) {
            proof {
                lemma_find_sub_unique(s@, p@, i as int);
            }
            return Some(i);
        }
        i = i + 1;
    }
    proof {
        assert forall|j: int| !matches_at(s@, p@, j) by {}
    }
    None
}

/// `s` with the first occurrence of `p` removed, or `s` itself when `p`
/// does not occur.
pub open spec fn remove_first_spec(s: Seq<char>, p: Seq<char>) -> Seq<char> {
    let r = find_sub_spec(s, p);
    if r < 0 {
        s
    } else {
        s.subrange(0, r) + s.skip(r + p.len() as int)
    }
}

pub fn remove_first(s: &str, p: &str) -> (r: String)
    ensures
        r@ == remove_first_spec(s@, p@),
{
    proof {
        lemma_find_sub(s@, p@);
    }
    match find_sub(s, p) {
        Some(i) => {
            let slen = s.unicode_len();
            let plen = p.unicode_len();
            let mut head = substring(s, 0, i);
            let tail = s.substring_char(i + plen, slen);
            head.append(tail);
            head
        },
        None => s.to_owned(),
    }
}

/// `s` without leading ASCII whitespace.
pub open spec fn trim_start_spec(s: Seq<char>) -> Seq<char>
    decreases s.len(),
{
    if s.len() > 0 && is_space_char(s[0]) {
        trim_start_spec(s.skip(1))
    } else {
        s
    }
}

/// `s` without trailing ASCII whitespace.
pub open spec fn trim_end_spec(s: Seq<char>) -> Seq<char>
    decreases s.len(),
{
    if s.len() > 0 && is_space_char(s.last()) {
        trim_end_spec(s.drop_last())
    } else {
        s
    }
}

/// `s` without leading and trailing ASCII whitespace.
pub open spec fn trim_spec(s: Seq<char>) -> Seq<char> {
    trim_end_spec(trim_start_spec(s))
}

proof fn lemma_trim_start_at(s: Seq<char>, i: int)
    requires
        0 <= i <= s.len(),
        forall|j: int| 0 <= j < i ==> is_space_char(s[j]),
        i < s.len() ==> !is_space_char(s[i]),
    ensures
        trim_start_spec(s) == s.skip(i),
    decreases i,
{
    if i == 0 {
        assert(s.skip(0) =~= s);
    } else {
        assert(is_space_char(s[0]));
        assert forall|j: int| 1 <= j < s.len() implies s[j] == s.skip(1)[j - 1] by {}
        lemma_trim_start_at(s.skip(1), i - 1);
        assert(s.skip(1).skip(i - 1) =~= s.skip(i));
    }
}

proof fn lemma_trim_end_at(s: Seq<char>, e: int)
    requires
        0 <= e <= s.len(),
        forall|j: int| e <= j < s.len() ==> is_space_char(s[j]),
        e > 0 ==> !is_space_char(s[e - 1]),
    ensures
        trim_end_spec(s) == s.subrange(0, e),
    decreases s.len() - e,
{
    if e == s.len() {
        assert(s.subrange(0, e) =~= s);
    } else {
        assert(is_space_char(s.last()));
        assert forall|j: int| 0 <= j < s.len() - 1 implies s[j] == s.drop_last()[j] by {}
        lemma_trim_end_at(s.drop_last(), e);
        assert(s.drop_last().subrange(0, e) =~= s.subrange(0, e));
    }
}

pub fn trim(s: &str) -> (r: String)
    ensures
        r@ == trim_spec(s@),
{
    let len = s.unicode_len();
    let mut b: usize = 0;
    while b < len && exec_is_space(s.get_char(b))
        invariant
            len == s@.len(),
            b <= len,
            forall|j: int| 0 <= j < b ==> is_space_char(s@[j]),
        decreases len - b,
    {
        b = b + 1;
    }
    proof {
        lemma_trim_start_at(s@, b as int);
    }
    let mut e: usize = len;
    while e > b && exec_is_space(s.get_char(e - 1))
        invariant
            len == s@.len(),
            b <= e <= len,
            forall|j: int| e <= j < len ==> is_space_char(s@[j]),
        decreases e,
    {
        e = e - 1;
    }
    let ghost t = s@.skip(b as int);
    proof {
        assert forall|j: int| 0 <= j < t.len() implies t[j] == s@[b + j] by {}
        lemma_trim_end_at(t, e - b);
        assert(t.subrange(0, e - b) =~= s@.subrange(b as int, e as int));
    }
    substring(s, b, e)
}

/// `s` without leading ASCII whitespace, executable form.
pub fn trim_start(s: &str) -> (r: String)
    ensures
        r@ == trim_start_spec(s@),
{
    let len = s.unicode_len();
    let mut b: usize = 0;
    while b < len && exec_is_space(s.get_char(b))
        invariant
            len == s@.len(),
            b <= len,
            forall|j: int| 0 <= j < b ==> is_space_char(s@[j]),
        decreases len - b,
    {
        b = b + 1;
    }
    proof {
        lemma_trim_start_at(s@, b as int);
    }
    substring(s, b, len)
}

/// `s` without trailing copies of the character `c`.
pub open spec fn trim_end_char_spec(s: Seq<char>, c: char) -> Seq<char>
    decreases s.len(),
{
    if s.len() > 0 && s.last() == c {
        trim_end_char_spec(s.drop_last(), c)
    } else {
        s
    }
}

proof fn lemma_trim_end_char_at(s: Seq<char>, c: char, e: int)
    requires
        0 <= e <= s.len(),
        forall|j: int| e <= j < s.len() ==> s[j] == c,
        e > 0 ==> s[e - 1] != c,
    ensures
        trim_end_char_spec(s, c) == s.subrange(0, e),
    decreases s.len() - e,
{
    if e == s.len() {
        assert(s.subrange(0, e) =~= s);
    } else {
        assert forall|j: int| 0 <= j < s.len() - 1 implies s[j] == s.drop_last()[j] by {}
        lemma_trim_end_char_at(s.drop_last(), c, e);
        assert(s.drop_last().subrange(0, e) =~= s.subrange(0, e));
    }
}

pub fn trim_end_char(s: &str, c: char) -> (r: String)
    ensures
        r@ == trim_end_char_spec(s@, c),
{
    let len = s.unicode_len();
    let mut e: usize = len;
    while e > 0 && s.get_char(e - 1) == c
        invariant
            len == s@.len(),
            e <= len,
            forall|j: int| e <= j < len ==> s@[j] == c,
        decreases e,
    {
        e = e - 1;
    }
    proof {
        lemma_trim_end_char_at(s@, c, e as int);
    }
    substring(s, 0, e)
}

/// `s` without leading copies of the character `c`.
pub open spec fn trim_start_char_spec(s: Seq<char>, c: char) -> Seq<char>
    decreases s.len(),
{
    if s.len() > 0 && s[0] == c {
        trim_start_char_spec(s.skip(1), c)
    } else {
        s
    }
}

proof fn lemma_trim_start_char_at(s: Seq<char>, c: char, b: int)
    requires
        0 <= b <= s.len(),
        forall|j: int| 0 <= j < b ==> s[j] == c,
        b < s.len() ==> s[b] != c,
    ensures
        trim_start_char_spec(s, c) == s.skip(b),
    decreases b,
{
    if b == 0 {
        assert(s.skip(0) =~= s);
    } else {
        assert forall|j: int| 1 <= j < s.len() implies s[j] == s.skip(1)[j - 1] by {}
        lemma_trim_start_char_at(s.skip(1), c, b - 1);
        assert(s.skip(1).skip(b - 1) =~= s.skip(b));
    }
}

pub fn trim_start_char(s: &str, c: char) -> (r: String)
    ensures
        r@ == trim_start_char_spec(s@, c),
{
    let len = s.unicode_len();
    let mut b: usize = 0;
    while b < len && s.get_char(b) == c
        invariant
            len == s@.len(),
            b <= len,
            forall|j: int| 0 <= j < b ==> s@[j] == c,
        decreases len - b,
    {
        b = b + 1;
    }
    proof {
        lemma_trim_start_char_at(s@, c, b as int);
    }
    substring(s, b, len)
}

/// Carriage returns and line feeds removed, as done to every raw line
/// the pump reads.
pub open spec fn strip_crlf_spec(s: Seq<char>) -> Seq<char> {
    s.filter(|c: char| c != '\n' && c != '\r')
}

pub fn strip_crlf(s: &str) -> (r: String)
    ensures
        r@ == strip_crlf_spec(s@),
{
    let len = s.unicode_len();
    let mut out = String::new();
    let mut i: usize = 0;
    proof {
        assert(s@.take(0) =~= Seq::<char>::empty());
        reveal_with_fuel(Seq::filter, 1);
    }
    while i < len
        invariant
            len == s@.len(),
            i <= len,
            out@ == s@.take(i as int).filter(|c: char| c != '\n' && c != '\r'),
        decreases len - i,
    {
        let c = s.get_char(i);
        proof {
            assert(s@.take(i + 1).drop_last() =~= s@.take(i as int));
            assert(s@.take(i + 1).last() == s@[i as int]);
            reveal_with_fuel(Seq::filter, 2);
        }
        if c != '\n' && c != '\r' {
            push_char(&mut out, c);
        }
        i = i + 1;
    }
    proof {
        assert(s@.take(len as int) =~= s@);
    }
    out
}

/// Trimming a token without spaces is the identity, with or without one
/// leading space.
pub proof fn lemma_trim_of_token(s: Seq<char>)
    requires
        forall|j: int| 0 <= j < s.len() ==> !is_space_char(s[j]),
    ensures
        trim_spec(s) == s,
        trim_spec(seq![' '] + s) == s,
{
    lemma_trim_start_at(s, 0);
    lemma_trim_end_at(s, s.len() as int);
    assert(s.subrange(0, s.len() as int) =~= s);
    let t = seq![' '] + s;
    assert(t[0] == ' ');
    lemma_trim_start_at(t, 1);
    assert(t.skip(1) =~= s);
}

/// Splitting distributes over concatenation at a separator.
pub proof fn lemma_split_concat(a: Seq<char>, b: Seq<char>, c: char)
    ensures
        split_char_spec(a + seq![c] + b, c) == split_char_spec(a, c) + split_char_spec(b, c),
    decreases a.len(),
{
    let s = a + seq![c] + b;
    let i = find_char_spec(a, c);
    lemma_find_char(a, c);
    if i < 0 {
        lemma_find_char_unique(s, c, a.len() as int);
        assert(s.subrange(0, a.len() as int) =~= a);
        assert(s.skip(a.len() as int + 1) =~= b);
        assert(split_char_spec(s, c) =~= split_char_spec(a, c) + split_char_spec(b, c));
    } else {
        lemma_find_char_unique(s, c, i);
        assert(s.subrange(0, i) =~= a.subrange(0, i));
        assert(s.skip(i + 1) =~= a.skip(i + 1) + seq![c] + b);
        lemma_split_concat(a.skip(i + 1), b, c);
        assert(split_char_spec(s, c) =~= split_char_spec(a, c) + split_char_spec(b, c));
    }
}

/// A piece without the separator splits into itself alone.
pub proof fn lemma_split_whole(s: Seq<char>, c: char)
    requires
        forall|j: int| 0 <= j < s.len() ==> s[j] != c,
    ensures
        split_char_spec(s, c) == seq![s],
{
    lemma_find_char(s, c);
}

/// First index at or past `i` that holds a non-space character.
pub open spec fn scan_space_spec(s: Seq<char>, i: int) -> int
    recommends
        0 <= i <= s.len(),
    decreases s.len() - i when 0 <= i <= s.len()
{
    if i < s.len() && is_space_char(s[i]) {
        scan_space_spec(s, i + 1)
    } else {
        i
    }
}

/// First index at or past `i` that holds a space character: the end of the
/// token starting at `i`.
pub open spec fn scan_token_spec(s: Seq<char>, i: int) -> int
    recommends
        0 <= i <= s.len(),
    decreases s.len() - i when 0 <= i <= s.len()
{
    if i < s.len() && !is_space_char(s[i]) {
        scan_token_spec(s, i + 1)
    } else {
        i
    }
}

proof fn lemma_scan_space_at(s: Seq<char>, i: int, j: int)
    requires
        0 <= i <= j <= s.len(),
        forall|k: int| i <= k < j ==> is_space_char(s[k]),
        j < s.len() ==> !is_space_char(s[j]),
    ensures
        scan_space_spec(s, i) == j,
    decreases j - i,
{
    if i < j {
        lemma_scan_space_at(s, i + 1, j);
    }
}

proof fn lemma_scan_token_at(s: Seq<char>, i: int, j: int)
    requires
        0 <= i <= j <= s.len(),
        forall|k: int| i <= k < j ==> !is_space_char(s[k]),
        j < s.len() ==> is_space_char(s[j]),
    ensures
        scan_token_spec(s, i) == j,
    decreases j - i,
{
    if i < j {
        lemma_scan_token_at(s, i + 1, j);
    }
}

pub fn scan_space(s: &str, from: usize) -> (r: usize)
    requires
        from <= s@.len(),
    ensures
        from <= r <= s@.len(),
        r as int == scan_space_spec(s@, from as int),
{
    let len = s.unicode_len();
    let mut i: usize = from;
    while i < len && exec_is_space(s.get_char(i))
        invariant
            len == s@.len(),
            from <= i <= len,
            forall|k: int| from <= k < i ==> is_space_char(s@[k]),
        decreases len - i,
    {
        i = i + 1;
    }
    proof {
        lemma_scan_space_at(s@, from as int, i as int);
    }
    i
}

pub fn scan_token(s: &str, from: usize) -> (r: usize)
    requires
        from <= s@.len(),
    ensures
        from <= r <= s@.len(),
        r as int == scan_token_spec(s@, from as int),
{
    let len = s.unicode_len();
    let mut i: usize = from;
    while i < len && !exec_is_space(s.get_char(i))
        invariant
            len == s@.len(),
            from <= i <= len,
            forall|k: int| from <= k < i ==> !is_space_char(s@[k]),
        decreases len - i,
    {
        i = i + 1;
    }
    proof {
        lemma_scan_token_at(s@, from as int, i as int);
    }
    i
}

/// The pieces of `s` between occurrences of the separator `c`;
/// always at least one piece, possibly empty.
pub open spec fn split_char_spec(s: Seq<char>, c: char) -> Seq<Seq<char>>
    decreases s.len(),
    via split_char_spec_dec
{
    let i = find_char_spec(s, c);
    if i < 0 {
        seq![s]
    } else {
        seq![s.subrange(0, i)] + split_char_spec(s.skip(i + 1), c)
    }
}

#[via_fn]
proof fn split_char_spec_dec(s: Seq<char>, c: char) {
    lemma_find_char(s, c);
}

pub fn split_all(s: &str, c: char) -> (r: Vec<String>)
    ensures
        r.deep_view() == split_char_spec(s@, c),
{
    let mut parts: Vec<String> = Vec::new();
    let mut rest: String = s.to_owned();
    loop
        invariant_except_break
            split_char_spec(s@, c) =~= parts.deep_view() + split_char_spec(rest@, c),
        ensures
            parts.deep_view() =~= split_char_spec(s@, c),
        decreases rest@.len(),
    {
        proof {
            lemma_find_char(rest@, c);
        }
        let ghost old_parts = parts.deep_view();
        match find_char(rest.as_str(), c) {
            Some(i) => {
                let len = rest.unicode_len();
                let piece = substring(rest.as_str(), 0, i);
                let next = substring(rest.as_str(), i + 1, len);
                proof {
                    assert((old_parts + split_char_spec(rest@, c)) =~= (old_parts + seq![
                        piece@,
                    ]) + split_char_spec(next@, c));
                }
                parts.push(piece);
                proof {
                    assert(parts.deep_view() =~= old_parts + seq![piece@]);
                }
                rest = next;
            },
            None => {
                parts.push(rest);
                proof {
                    assert(parts.deep_view() =~= old_parts.push(rest@));
                    assert(old_parts + split_char_spec(rest@, c) =~= old_parts.push(rest@));
                }
                break ;
            },
        }
    }
    parts
}

} // verus!
