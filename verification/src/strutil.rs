//! Verified string helpers: ASCII-case-insensitive comparison and substring
//! search over character views, prefix tests, and decimal / hexadecimal
//! rendering of integers.
//!
//! Upstream identifiers (player names, objective labels) are matched without
//! regard to ASCII case; non-ASCII characters are compared as they are.

use vstd::prelude::*;
use vstd::string::StrSliceExecFns;
use vstd::string::StringExecFns;

verus! {

/// Code point of `c` with an ASCII upper-case letter folded to lower case.
pub open spec fn lower_code(c: char) -> int {
    if 65 <= c as int && c as int <= 90 {
        c as int + 32
    } else {
        c as int
    }
}

/// The two character sequences are equal once ASCII letters are folded to
/// lower case.
pub open spec fn eq_fold(a: Seq<char>, b: Seq<char>) -> bool {
    a.len() == b.len() && forall|j: int|
        0 <= j < a.len() ==> lower_code(a[j]) == lower_code(b[j])
}

/// `needle` occurs in `hay` at position `i`, comparing ASCII letters without
/// regard to case.
pub open spec fn matches_fold_at(hay: Seq<char>, needle: Seq<char>, i: int) -> bool {
    &&& 0 <= i
    &&& i + needle.len() <= hay.len()
    &&& forall|j: int| 0 <= j < needle.len() ==> lower_code(hay[i + j]) == lower_code(needle[j])
}

/// `needle` occurs somewhere in `hay`, comparing ASCII letters without regard
/// to case.
pub open spec fn contains_fold(hay: Seq<char>, needle: Seq<char>) -> bool {
    exists|i: int| matches_fold_at(hay, needle, i)
}

/// `p` is a prefix of `s`, compared exactly.
pub open spec fn is_prefix_of(p: Seq<char>, s: Seq<char>) -> bool {
    p.len() <= s.len() && forall|j: int| 0 <= j < p.len() ==> s[j] == p[j]
}

/// Folds one ASCII upper-case letter to lower case, as a code point.
fn lower_u32(c: char) -> (r: u32)
    ensures
        r as int == lower_code(c),
{
    let x = c as u32;
    if 65 <= x && x <= 90 {
        x + 32
    } else {
        x
    }
}

/// Exact string equality over character views.
pub fn str_eq(a: &str, b: &str) -> (r: bool)
    ensures
        r == (a@ == b@),
{
    let alen = a.unicode_len();
    let blen = b.unicode_len();
    if alen != blen {
        return false;
    }
    let mut i: usize = 0;
    while i < alen
        invariant
            alen == a@.len(),
            alen == b@.len(),
            i <= alen,
            forall|j: int| 0 <= j < i ==> a@[j] == b@[j],
        decreases alen - i,
    {
        let ca = a.get_char(i);
        let cb = b.get_char(i);
        if ca != cb {
            return false;
        }
        i = i + 1;
    }
    proof {
        assert(a@ =~= b@);
    }
    true
}

/// String equality with ASCII letters folded to lower case.
pub fn eq_ignore_ascii_case(a: &str, b: &str) -> (r: bool)
    ensures
        r == eq_fold(a@, b@),
{
    let alen = a.unicode_len();
    let blen = b.unicode_len();
    if alen != blen {
        return false;
    }
    let mut i: usize = 0;
    while i < alen
        invariant
            alen == a@.len(),
            alen == b@.len(),
            i <= alen,
            forall|j: int| 0 <= j < i ==> lower_code(a@[j]) == lower_code(b@[j]),
        decreases alen - i,
    {
        let ca = a.get_char(i);
        let cb = b.get_char(i);
        if lower_u32(ca) != lower_u32(cb) {
            return false;
        }
        i = i + 1;
    }
    true
}

/// Whether `needle` occurs in `hay` starting at `i`, with ASCII case folded.
fn matches_at(hay: &str, needle: &str, i: usize, hlen: usize, nlen: usize) -> (r: bool)
    requires
        hlen == hay@.len(),
        nlen == needle@.len(),
        i + nlen <= hlen,
    ensures
        r == matches_fold_at(hay@, needle@, i as int),
{
    let mut j: usize = 0;
    while j < nlen
        invariant
            hlen == hay@.len(),
            nlen == needle@.len(),
            i + nlen <= hlen,
            j <= nlen,
            forall|k: int| 0 <= k < j ==> lower_code(hay@[i + k]) == lower_code(needle@[k]),
        decreases nlen - j,
    {
        let ch = hay.get_char(i + j);
        let cn = needle.get_char(j);
        if lower_u32(ch) != lower_u32(cn) {
            return false;
        }
        j = j + 1;
    }
    true
}

/// Substring search with ASCII letters folded to lower case.
pub fn contains_ignore_ascii_case(hay: &str, needle: &str) -> (r: bool)
    ensures
        r == contains_fold(hay@, needle@),
{
    let hlen = hay.unicode_len();
    let nlen = needle.unicode_len();
    if nlen > hlen {
        return false;
    }
    let mut i: usize = 0;
    while i <= hlen - nlen
        invariant
            hlen == hay@.len(),
            nlen == needle@.len(),
            nlen <= hlen,
            i <= hlen - nlen + 1,
            forall|k: int| 0 <= k < i ==> !matches_fold_at(hay@, needle@, k),
        decreases hlen - nlen - i + 1,
    {
        if matches_at(hay, needle, i, hlen, nlen) {
            return true;
        }
        i = i + 1;
    }
    proof {
        assert forall|k: int| !matches_fold_at(hay@, needle@, k) by {
            if 0 <= k && k + needle@.len() <= hay@.len() {
                assert(k < i);
            }
        }
    }
    false
}

/// `needle` occurs in `hay` at position `i`, compared exactly.
pub open spec fn matches_exact_at(hay: Seq<char>, needle: Seq<char>, i: int) -> bool {
    &&& 0 <= i
    &&& i + needle.len() <= hay.len()
    &&& forall|j: int| 0 <= j < needle.len() ==> hay[i + j] == needle[j]
}

/// `needle` occurs somewhere in `hay`, compared exactly.
pub open spec fn contains_exact(hay: Seq<char>, needle: Seq<char>) -> bool {
    exists|i: int| matches_exact_at(hay, needle, i)
}

/// Whether `needle` occurs in `hay` starting at `i`, compared exactly.
fn matches_exact(hay: &str, needle: &str, i: usize, hlen: usize, nlen: usize) -> (r: bool)
    requires
        hlen == hay@.len(),
        nlen == needle@.len(),
        i + nlen <= hlen,
    ensures
        r == matches_exact_at(hay@, needle@, i as int),
{
    let mut j: usize = 0;
    while j < nlen
        invariant
            hlen == hay@.len(),
            nlen == needle@.len(),
            i + nlen <= hlen,
            j <= nlen,
            forall|k: int| 0 <= k < j ==> hay@[i + k] == needle@[k],
        decreases nlen - j,
    {
        let ch = hay.get_char(i + j);
        let cn = needle.get_char(j);
        if ch != cn {
            return false;
        }
        j = j + 1;
    }
    true
}

/// Exact substring search.
pub fn contains_str(hay: &str, needle: &str) -> (r: bool)
    ensures
        r == contains_exact(hay@, needle@),
{
    let hlen = hay.unicode_len();
    let nlen = needle.unicode_len();
    if nlen > hlen {
        return false;
    }
    let mut i: usize = 0;
    while i <= hlen - nlen
        invariant
            hlen == hay@.len(),
            nlen == needle@.len(),
            nlen <= hlen,
            i <= hlen - nlen + 1,
            forall|k: int| 0 <= k < i ==> !matches_exact_at(hay@, needle@, k),
        decreases hlen - nlen - i + 1,
    {
        if matches_exact(hay, needle, i, hlen, nlen) {
            return true;
        }
        i = i + 1;
    }
    proof {
        assert forall|k: int| !matches_exact_at(hay@, needle@, k) by {
            if 0 <= k && k + needle@.len() <= hay@.len() {
                assert(k < i);
            }
        }
    }
    false
}

/// Exact prefix test.
pub fn starts_with(s: &str, prefix: &str) -> (r: bool)
    ensures
        r == is_prefix_of(prefix@, s@),
{
    let slen = s.unicode_len();
    let plen = prefix.unicode_len();
    if plen > slen {
        return false;
    }
    let mut i: usize = 0;
    while i < plen
        invariant
            slen == s@.len(),
            plen == prefix@.len(),
            plen <= slen,
            i <= plen,
            forall|j: int| 0 <= j < i ==> s@[j] == prefix@[j],
        decreases plen - i,
    {
        let cs = s.get_char(i);
        let cp = prefix.get_char(i);
        if cs != cp {
            return false;
        }
        i = i + 1;
    }
    true
}

/// The Unicode lower-case mapping of a character sequence. Full case folding
/// takes the upstream library's tables; the result depends on the input
/// characters alone.
pub uninterp spec fn lower_of(s: Seq<char>) -> Seq<char>;

/// Relies on str::to_lowercase: the Unicode lower-case form of the input,
/// a function of the characters alone; an empty input stays empty.
#[verifier::external_body]
pub fn to_lowercase(s: &str) -> (r: String)
    ensures
        r@ == lower_of(s@),
        s@.len() == 0 ==> r@.len() == 0,
{
    s.to_lowercase()
}

/// The character for one decimal digit.
pub open spec fn digit_char(d: int) -> char {
    if d == 0 {
        '0'
    } else if d == 1 {
        '1'
    } else if d == 2 {
        '2'
    } else if d == 3 {
        '3'
    } else if d == 4 {
        '4'
    } else if d == 5 {
        '5'
    } else if d == 6 {
        '6'
    } else if d == 7 {
        '7'
    } else if d == 8 {
        '8'
    } else {
        '9'
    }
}

/// The character for one hexadecimal digit, lower case.
pub open spec fn hex_digit_char(d: int) -> char {
    if d < 10 {
        digit_char(d)
    } else if d == 10 {
        'a'
    } else if d == 11 {
        'b'
    } else if d == 12 {
        'c'
    } else if d == 13 {
        'd'
    } else if d == 14 {
        'e'
    } else {
        'f'
    }
}

/// Decimal representation of `n`, without leading zeros (`0` for zero).
pub open spec fn dec_rep(n: nat) -> Seq<char>
    decreases n,
{
    if n < 10 {
        seq![digit_char(n as int)]
    } else {
        dec_rep(n / 10).push(digit_char((n % 10) as int))
    }
}

/// Hexadecimal representation of `n` in exactly `width` digits, lower case,
/// most significant digit first.
pub open spec fn hex_rep(n: nat, width: nat) -> Seq<char>
    decreases width,
{
    if width == 0 {
        Seq::empty()
    } else {
        hex_rep(n / 16, (width - 1) as nat).push(hex_digit_char((n % 16) as int))
    }
}

/// One decimal digit as a string slice.
fn digit_str(d: u64) -> (r: &'static str)
    requires
        d < 10,
    ensures
        r@ =~= seq![digit_char(d as int)],
{
    proof {
        reveal_strlit("0");
        reveal_strlit("1");
        reveal_strlit("2");
        reveal_strlit("3");
        reveal_strlit("4");
        reveal_strlit("5");
        reveal_strlit("6");
        reveal_strlit("7");
        reveal_strlit("8");
        reveal_strlit("9");
    }
    match d {
        0 => "0",
        1 => "1",
        2 => "2",
        3 => "3",
        4 => "4",
        5 => "5",
        6 => "6",
        7 => "7",
        8 => "8",
        _ => "9",
    }
}

/// One hexadecimal digit as a string slice, lower case.
fn hex_digit_str(d: u64) -> (r: &'static str)
    requires
        d < 16,
    ensures
        r@ =~= seq![hex_digit_char(d as int)],
{
    proof {
        reveal_strlit("a");
        reveal_strlit("b");
        reveal_strlit("c");
        reveal_strlit("d");
        reveal_strlit("e");
        reveal_strlit("f");
    }
    if d < 10 {
        digit_str(d)
    } else {
        match d {
            10 => "a",
            11 => "b",
            12 => "c",
            13 => "d",
            14 => "e",
            _ => "f",
        }
    }
}

/// Renders `n` in decimal.
pub fn u64_to_dec(n: u64) -> (r: String)
    ensures
        r@ == dec_rep(n as nat),
    decreases n,
{
    if n < 10 {
        let r = String::from_str(digit_str(n));
        proof {
            assert(r@ =~= dec_rep(n as nat));
        }
        r
    } else {
        let mut r = u64_to_dec(n / 10);
        r.append(digit_str(n % 10));
        proof {
            assert(r@ =~= dec_rep(n as nat));
        }
        r
    }
}

/// Renders `n` as exactly `width` lower-case hexadecimal digits.
pub fn u64_to_hex_width(n: u64, width: usize) -> (r: String)
    ensures
        r@ == hex_rep(n as nat, width as nat),
    decreases width,
{
    if width == 0 {
        String::new()
    } else {
        let mut r = u64_to_hex_width(n / 16, width - 1);
        r.append(hex_digit_str(n % 16));
        proof {
            assert(r@ =~= hex_rep(n as nat, width as nat));
        }
        r
    }
}

} // verus!
