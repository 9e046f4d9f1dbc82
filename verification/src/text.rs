//! Text helpers the access layer relies on: the exact trim-and-lowercase
//! normalization applied before a field search, plain string equality,
//! and decimal rendering for query limits.

use vstd::prelude::*;
use vstd::string::StringExecFns;

verus! {

/// A character with the Unicode `White_Space` property, the set `str::trim`
/// removes from both ends.
pub open spec fn is_wsp(c: char) -> bool {
    c == '\u{9}' || c == '\u{A}' || c == '\u{B}' || c == '\u{C}' || c == '\u{D}' || c == ' '
        || c == '\u{85}' || c == '\u{A0}' || c == '\u{1680}' || c == '\u{2000}' || c == '\u{2001}'
        || c == '\u{2002}' || c == '\u{2003}' || c == '\u{2004}' || c == '\u{2005}'
        || c == '\u{2006}' || c == '\u{2007}' || c == '\u{2008}' || c == '\u{2009}'
        || c == '\u{200A}' || c == '\u{2028}' || c == '\u{2029}' || c == '\u{202F}'
        || c == '\u{205F}' || c == '\u{3000}'
}

pub open spec fn trim_start_spec(s: Seq<char>) -> Seq<char>
    decreases s.len(),
{
    if s.len() > 0 && is_wsp(s[0]) {
        trim_start_spec(s.drop_first())
    } else {
        s
    }
}

pub open spec fn trim_end_spec(s: Seq<char>) -> Seq<char>
    decreases s.len(),
{
    if s.len() > 0 && is_wsp(s[s.len() - 1]) {
        trim_end_spec(s.drop_last())
    } else {
        s
    }
}

/// What remains of `s` once leading and trailing whitespace is removed.
pub open spec fn trim_spec(s: Seq<char>) -> Seq<char> {
    trim_end_spec(trim_start_spec(s))
}

/// Relies on `str::trim`: returns the slice with leading and trailing
/// Unicode whitespace removed.
pub assume_specification<'a>[ str::trim ](s: &'a str) -> (r: &'a str)
    ensures
        r@ == trim_spec(s@),
;

/// The ASCII-lowercase image of one character: `'A'..='Z'` map to
/// `'a'..='z'`, everything else is unchanged.
pub open spec fn lower_char(c: char) -> char {
    if 65 <= c as int <= 90 {
        ((c as int) + 32) as char
    } else {
        c
    }
}

/// The ASCII-lowercase image of a whole character sequence.
pub open spec fn lower_seq(s: Seq<char>) -> Seq<char> {
    s.map_values(|c: char| lower_char(c))
}

/// Relies on `str::to_ascii_lowercase`: a copy with each character mapped
/// to its ASCII lower-case equivalent.
pub assume_specification[ str::to_ascii_lowercase ](s: &str) -> (r: String)
    ensures
        r@ == lower_seq(s@),
;

/// The normalization applied to a search value before comparison:
/// trim both ends, then lower-case ASCII letters.
pub open spec fn spec_normalize(s: Seq<char>) -> Seq<char> {
    lower_seq(trim_spec(s))
}

/// Normalize a search value: the deliberate case-insensitive lookup policy.
pub fn normalize(v: &str) -> (r: String)
    ensures
        r@ == spec_normalize(v@),
{
    let t = v.trim();
    t.to_ascii_lowercase()
}

/// Plain string equality, stated over the character sequences.
pub fn str_eq(a: &str, b: &str) -> (r: bool)
    ensures
        r == (a@ == b@),
{
    let x = a.to_owned();
    let y = b.to_owned();
    x == y
}

/// The decimal digit for a value below ten.
pub open spec fn spec_dec_digit(d: int) -> char {
    if d == 0 {
        '0'
    } else if d == 1 {
        '1'
    } else if d == 2 {
        '2'
    } else if d == 3 {
        '3'
    } else if d == 4 {
        '4'
    } else if d == 5 {
        '5'
    } else if d == 6 {
        '6'
    } else if d == 7 {
        '7'
    } else if d == 8 {
        '8'
    } else {
        '9'
    }
}

/// The decimal rendering of a non-negative integer, most significant
/// digit first.
pub open spec fn spec_dec(n: int) -> Seq<char>
    decreases n,
{
    if n < 10 {
        seq![spec_dec_digit(n)]
    } else {
        spec_dec(n / 10) + seq![spec_dec_digit(n % 10)]
    }
}

fn dec_digit(d: u64) -> (r: &'static str)
    requires
        d < 10,
    ensures
        r@ == seq![spec_dec_digit(d as int)],
{
    proof {
        reveal_strlit("0");
        reveal_strlit("1");
        reveal_strlit("2");
        reveal_strlit("3");
        reveal_strlit("4");
        reveal_strlit("5");
        reveal_strlit("6");
        reveal_strlit("7");
        reveal_strlit("8");
        reveal_strlit("9");
    }
    let r = match d {
        0 => "0",
        1 => "1",
        2 => "2",
        3 => "3",
        4 => "4",
        5 => "5",
        6 => "6",
        7 => "7",
        8 => "8",
        _ => "9",
    };
    proof {
        assert(r@ =~= seq![spec_dec_digit(d as int)]);
    }
    r
}

/// Render a number in decimal, as query limits are written.
pub fn u64_to_dec(n: u64) -> (r: String)
    ensures
        r@ == spec_dec(n as int),
    decreases n,
{
    if n < 10 {
        dec_digit(n).to_owned()
    } else {
        let s = u64_to_dec(n / 10);
        s.concat(dec_digit(n % 10))
    }
}

} // verus!
