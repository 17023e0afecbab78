//! Small verified helpers on strings: prefix tests, equality, CRLF search,
//! decimal rendering of numbers, and ASCII upper-casing.

use vstd::prelude::*;
use vstd::string::StrSliceExecFns;
use vstd::string::StringExecFns;

verus! {

broadcast use vstd::string::group_string_axioms;

/// `s` begins with the prefix `p`.
pub open spec fn starts_with(s: Seq<char>, p: Seq<char>) -> bool {
    p.len() <= s.len() && s.subrange(0, p.len() as int) == p
}

/// Relies on std's `String::push`: appends the given character to the end of
/// the string.
#[verifier::external_body]
pub fn push_char(s: &mut String, c: char)
    ensures
        final(s)@ == old(s)@.push(c),
{
    s.push(c);
}

/// Whether `s` starts with `p`, decided character by character.
pub fn has_prefix(s: &str, p: &str) -> (r: bool)
    ensures
        r == starts_with(s@, p@),
{
    let sl = s.unicode_len();
    let pl = p.unicode_len();
    if pl > sl {
        return false;
    }
    let mut i: usize = 0;
    while i < pl
        invariant
            i <= pl,
            pl <= sl,
            pl == p@.len(),
            sl == s@.len(),
            forall|j: int| 0 <= j < i ==> s@[j] == p@[j],
        decreases pl - i,
    {
        if s.get_char(i) != p.get_char(i) {
            assert(s@.subrange(0, pl as int)[i as int] == s@[i as int]);
            return false;
        }
        i += 1;
    }
    assert(s@.subrange(0, pl as int) =~= p@);
    true
}

/// Whether the two strings hold the same characters.
pub fn str_eq(a: &str, b: &str) -> (r: bool)
    ensures
        r == (a@ == b@),
{
    let al = a.unicode_len();
    let bl = b.unicode_len();
    if al != bl {
        return false;
    }
    let mut i: usize = 0;
    while i < al
        invariant
            i <= al,
            al == a@.len(),
            al == b@.len(),
            forall|j: int| 0 <= j < i ==> a@[j] == b@[j],
        decreases al - i,
    {
        if a.get_char(i) != b.get_char(i) {
            return false;
        }
        i += 1;
    }
    assert(a@ =~= b@);
    true
}

/// A carriage-return/line-feed pair occurs somewhere in `s`.
pub open spec fn has_crlf(s: Seq<char>) -> bool {
    exists|i: int| 0 <= i && i + 1 < s.len() && #[trigger] s[i] == '\r' && s[i + 1] == '\n'
}

/// Whether `s` contains a CRLF pair.
pub fn contains_crlf(s: &str) -> (r: bool)
    ensures
        r == has_crlf(s@),
{
    let l = s.unicode_len();
    if l < 2 {
        return false;
    }
    let mut i: usize = 0;
    while i + 1 < l
        invariant
            l == s@.len(),
            i + 1 <= l,
            forall|j: int| 0 <= j && j + 1 < s@.len() && j < i ==> !(#[trigger] s@[j] == '\r'
                && s@[j + 1] == '\n'),
        decreases l - i,
    {
        if s.get_char(i) == '\r' && s.get_char(i + 1) == '\n' {
            return true;
        }
        i += 1;
    }
    false
}

/// The character for one decimal digit.
pub open spec fn dec_digit(d: nat) -> char
    recommends
        d < 10,
{
    if d == 0 {
        '0'
    } else if d == 1 {
        '1'
    } else if d == 2 {
        '2'
    } else if d == 3 {
        '3'
    } else if d == 4 {
        '4'
    } else if d == 5 {
        '5'
    } else if d == 6 {
        '6'
    } else if d == 7 {
        '7'
    } else if d == 8 {
        '8'
    } else {
        '9'
    }
}

/// The usual decimal rendering of `n`, most significant digit first, with no
/// leading zeros (a single `'0'` for zero).
pub open spec fn dec_str(n: nat) -> Seq<char>
    decreases n,
{
    if n < 10 {
        seq![dec_digit(n)]
    } else {
        dec_str(n / 10).push(dec_digit(n % 10))
    }
}

/// The character for the digit `d`.
pub fn digit_char(d: usize) -> (c: char)
    requires
        d < 10,
    ensures
        c == dec_digit(d as nat),
{
    if d == 0 {
        '0'
    } else if d == 1 {
        '1'
    } else if d == 2 {
        '2'
    } else if d == 3 {
        '3'
    } else if d == 4 {
        '4'
    } else if d == 5 {
        '5'
    } else if d == 6 {
        '6'
    } else if d == 7 {
        '7'
    } else if d == 8 {
        '8'
    } else {
        '9'
    }
}

/// Renders `n` in decimal.
pub fn usize_to_dec(n: usize) -> (r: String)
    ensures
        r@ == dec_str(n as nat),
    decreases n,
{
    if n < 10 {
        let mut s = String::new();
        push_char(&mut s, digit_char(n));
        assert(s@ =~= seq![dec_digit(n as nat)]);
        s
    } else {
        assert(n / 10 < n) by (nonlinear_arith)
            requires
                n >= 10,
        ;
        let mut s = usize_to_dec(n / 10);
        push_char(&mut s, digit_char(n % 10));
        s
    }
}

/// The ASCII upper-case counterpart of `c`; characters outside `'a'..='z'`
/// are unchanged.
pub open spec fn upper_char(c: char) -> char {
    if 'a' <= c && c <= 'z' {
        (c as u8 - 0x20) as char
    } else {
        c
    }
}

/// `s` with every ASCII lower-case letter upper-cased.
pub open spec fn upper_chars(s: Seq<char>) -> Seq<char> {
    s.map_values(|c: char| upper_char(c))
}

/// ASCII upper-casing of a whole string.
pub fn to_ascii_upper(s: &str) -> (r: String)
    ensures
        r@ == upper_chars(s@),
{
    let l = s.unicode_len();
    let mut r = String::new();
    let mut i: usize = 0;
    while i < l
        invariant
            i <= l,
            l == s@.len(),
            r@ == s@.subrange(0, i as int).map_values(|c: char| upper_char(c)),
        decreases l - i,
    {
        let c = s.get_char(i);
        let u: char = if 'a' <= c && c <= 'z' {
            ((c as u8) - 0x20) as char
        } else {
            c
        };
        assert(u == upper_char(s@[i as int]));
        push_char(&mut r, u);
        assert(s@.subrange(0, i + 1 as int) =~= s@.subrange(0, i as int).push(s@[i as int]));
        assert(s@.subrange(0, i + 1 as int).map_values(|c: char| upper_char(c)) =~= s@.subrange(
            0,
            i as int,
        ).map_values(|c: char| upper_char(c)).push(upper_char(s@[i as int])));
        i += 1;
    }
    assert(s@.subrange(0, l as int) =~= s@);
    r
}

} // verus!
