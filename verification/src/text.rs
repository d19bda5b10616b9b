//! Characters and strings: bridging between `String` and `Vec<char>`, and a
//! whitespace trim.
//!
//! All text processing in this crate works over `Vec<char>` / `Seq<char>`;
//! the two collect wrappers carry values across the `String` boundary.

use vstd::prelude::*;

verus! {

/// Relies on `Iterator::collect` for `String` from `char`s: the string holds
/// exactly the characters of `v`, in order.
#[verifier::external_body]
pub fn chars_to_string(v: &Vec<char>) -> (r: String)
    ensures
        r@ == v@,
{
    v.iter().collect()
}

/// Relies on `str::chars` and `Iterator::collect` for `Vec<char>`: the vector
/// holds exactly the characters of `s`, in order.
#[verifier::external_body]
pub fn string_to_chars(s: &str) -> (r: Vec<char>)
    ensures
        r@ == s@,
{
    s.chars().collect()
}

/// A scalar value: anything but the surrogate range and values past the
/// largest code point.
pub open spec fn is_unicode_scalar(u: u32) -> bool {
    u < 0xD800 || (0xE000 <= u && u <= 0x10FFFF)
}

/// Relies on `char::from_u32`: `Some` exactly on Unicode scalar values, and
/// the character returned is the one with that code.
#[verifier::external_body]
pub fn char_from_u32(u: u32) -> (r: Option<char>)
    ensures
        is_unicode_scalar(u) ==> r == Some(u as char),
        !is_unicode_scalar(u) ==> r is None,
{
    char::from_u32(u)
}

/// The whitespace characters that `trim` strips.
pub open spec fn is_blank(c: char) -> bool {
    c == ' ' || c == '\t' || c == '\n' || c == '\r'
}

/// Exec test for `is_blank`.
pub fn blank(c: char) -> (r: bool)
    ensures
        r == is_blank(c),
{
    c == ' ' || c == '\t' || c == '\n' || c == '\r'
}

/// `s` without leading blanks.
pub open spec fn trim_front_spec(s: Seq<char>) -> Seq<char>
    decreases s.len(),
{
    if s.len() > 0 && is_blank(s[0]) {
        trim_front_spec(s.drop_first())
    } else {
        s
    }
}

/// `s` without trailing blanks.
pub open spec fn trim_back_spec(s: Seq<char>) -> Seq<char>
    decreases s.len(),
{
    if s.len() > 0 && is_blank(s[s.len() - 1]) {
        trim_back_spec(s.drop_last())
    } else {
        s
    }
}

/// `s` without leading and trailing blanks.
pub open spec fn trim_spec(s: Seq<char>) -> Seq<char> {
    trim_back_spec(trim_front_spec(s))
}

/// Strip leading and trailing blanks from a character vector.
pub fn trim_chars(s: &Vec<char>) -> (r: Vec<char>)
    ensures
        r@ == trim_spec(s@),
{
    let mut start: usize = 0;
    proof {
        assert(s@.subrange(0, s@.len() as int) =~= s@);
    }
    while start < s.len() && blank(s[start])
        invariant
            start <= s.len(),
            trim_front_spec(s@) == trim_front_spec(s@.subrange(start as int, s@.len() as int)),
        decreases s.len() - start,
    {
        proof {
            assert(s@.subrange(start as int, s@.len() as int).drop_first() =~= s@.subrange(
                start as int + 1,
                s@.len() as int,
            ));
        }
        start = start + 1;
    }
    let mut end: usize = s.len();
    proof {
        assert(trim_front_spec(s@.subrange(start as int, s@.len() as int)) == s@.subrange(
            start as int,
            s@.len() as int,
        ));
    }
    while end > start && blank(s[end - 1])
        invariant
            start <= end <= s.len(),
            trim_spec(s@) == trim_back_spec(s@.subrange(start as int, end as int)),
        decreases end,
    {
        proof {
            assert(s@.subrange(start as int, end as int).drop_last() =~= s@.subrange(
                start as int,
                end as int - 1,
            ));
        }
        end = end - 1;
    }
    proof {
        assert(trim_back_spec(s@.subrange(start as int, end as int)) == s@.subrange(
            start as int,
            end as int,
        ));
    }
    let mut out: Vec<char> = Vec::new();
    let mut i: usize = start;
    while i < end
        invariant
            start <= i <= end <= s.len(),
            out@ == s@.subrange(start as int, i as int),
        decreases end - i,
    {
        out.push(s[i]);
        proof {
            assert(s@.subrange(start as int, i + 1 as int) =~= s@.subrange(start as int, i as int)
                + seq![s@[i as int]]);
        }
        i = i + 1;
    }
    out
}

/// Strip leading and trailing blanks from a string.
pub fn trim(s: &str) -> (r: String)
    ensures
        r@ == trim_spec(s@),
{
    let chars = string_to_chars(s);
    let trimmed = trim_chars(&chars);
    chars_to_string(&trimmed)
}

} // verus!
