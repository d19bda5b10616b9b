//! A small JSON document model with an exact serializer and parser.
//!
//! The model covers what the daemon's wire formats use: strings, unsigned
//! integers, arrays and objects with ordered fields.  The serializer writes
//! the compact form (no whitespace, control characters escaped); the parser
//! accepts that form plus surrounding whitespace, both escape styles of
//! letters and `\u` sequences, and objects with unknown fields.  Numbers are
//! restricted to unsigned integers and `\u` escapes to scalar values; inputs
//! outside that subset are rejected rather than misread.

use vstd::prelude::*;

use crate::text::chars_to_string;
use crate::text::char_from_u32;
use crate::text::is_unicode_scalar;
use crate::text::string_to_chars;

verus! {

/// Mathematical model of a JSON value.
pub enum JsonV {
    Str(Seq<char>),
    Int(u64),
    Arr(Seq<JsonV>),
    Obj(Seq<(Seq<char>, JsonV)>),
}

/// A JSON value as held at run time.
#[derive(Debug)]
pub enum Json {
    Str(String),
    Int(u64),
    Arr(Vec<Json>),
    Obj(Vec<(String, Json)>),
}

/// The mathematical values of a list of documents.
pub open spec fn deep_list(items: Seq<Json>) -> Seq<JsonV>
    decreases items, 0int,
{
    if items.len() == 0 {
        Seq::empty()
    } else {
        seq![items[0].deep()] + deep_list(items.drop_first())
    }
}

/// The mathematical values of a list of object fields.
pub open spec fn deep_fields(fields: Seq<(String, Json)>) -> Seq<(Seq<char>, JsonV)>
    decreases fields, 0int,
{
    if fields.len() == 0 {
        Seq::empty()
    } else {
        seq![(fields[0].0@, fields[0].1.deep())] + deep_fields(fields.drop_first())
    }
}

impl Json {
    /// The mathematical value of this document.
    pub open spec fn deep(self) -> JsonV
        decreases self, 1int,
    {
        match self {
            Json::Str(s) => JsonV::Str(s@),
            Json::Int(n) => JsonV::Int(n),
            Json::Arr(items) => JsonV::Arr(deep_list(items@)),
            Json::Obj(fields) => JsonV::Obj(deep_fields(fields@)),
        }
    }
}

/// `deep_list` element by element.
pub proof fn lemma_deep_list_index(items: Seq<Json>)
    ensures
        deep_list(items).len() == items.len(),
        forall|i: int| 0 <= i < items.len() ==> deep_list(items)[i] == items[i].deep(),
    decreases items.len(),
{
    if items.len() > 0 {
        lemma_deep_list_index(items.drop_first());
    }
}

/// `deep_fields` element by element.
pub proof fn lemma_deep_fields_index(fields: Seq<(String, Json)>)
    ensures
        deep_fields(fields).len() == fields.len(),
        forall|i: int| 0 <= i < fields.len() ==> deep_fields(fields)[i] == (
            fields[i].0@,
            fields[i].1.deep(),
        ),
    decreases fields.len(),
{
    if fields.len() > 0 {
        lemma_deep_fields_index(fields.drop_first());
    }
}

/// The decimal digit character for `n`.
pub open spec fn digit_of(n: nat) -> char
    recommends
        n < 10,
{
    ((48 + n) as u32) as char
}

/// The lowercase hexadecimal digit character for `n`.
pub open spec fn hex_of(n: nat) -> char
    recommends
        n < 16,
{
    if n < 10 {
        digit_of(n)
    } else {
        ((87 + n) as u32) as char
    }
}

/// The decimal digits of `n`, most significant first.
pub open spec fn dec_digits(n: nat) -> Seq<char>
    decreases n,
{
    if n < 10 {
        seq![digit_of(n)]
    } else {
        dec_digits(n / 10) + seq![digit_of(n % 10)]
    }
}

/// How one character is written inside a JSON string literal: quote,
/// backslash and the named control characters get two-character escapes,
/// other control characters a `\u00xx` escape, everything else stands as is.
pub open spec fn esc_char(c: char) -> Seq<char> {
    if c == '"' {
        seq!['\\', '"']
    } else if c == '\\' {
        seq!['\\', '\\']
    } else if c == '\n' {
        seq!['\\', 'n']
    } else if c == '\t' {
        seq!['\\', 't']
    } else if c == '\r' {
        seq!['\\', 'r']
    } else if c as u32 == 8 {
        seq!['\\', 'b']
    } else if c as u32 == 12 {
        seq!['\\', 'f']
    } else if (c as u32) < 32 {
        seq!['\\', 'u', '0', '0', hex_of((c as u32 / 16) as nat), hex_of((c as u32 % 16) as nat)]
    } else {
        seq![c]
    }
}

/// A whole string body, escaped.
pub open spec fn esc_str(s: Seq<char>) -> Seq<char>
    decreases s.len(),
{
    if s.len() == 0 {
        Seq::empty()
    } else {
        esc_char(s[0]) + esc_str(s.drop_first())
    }
}

/// Escaping distributes over appending one character.
pub proof fn lemma_esc_str_snoc(s: Seq<char>, c: char)
    ensures
        esc_str(s.push(c)) == esc_str(s) + esc_char(c),
    decreases s.len(),
{
    if s.len() == 0 {
        assert(s.push(c)[0] == c);
        assert(s.push(c).drop_first() =~= Seq::<char>::empty());
        assert(esc_str(s.push(c)) == esc_char(c) + esc_str(Seq::<char>::empty()));
        assert(esc_char(c) + Seq::<char>::empty() =~= esc_char(c));
        assert(esc_str(s) + esc_char(c) =~= esc_char(c));
    } else {
        assert(s.push(c).drop_first() =~= s.drop_first().push(c));
        lemma_esc_str_snoc(s.drop_first(), c);
        assert(esc_str(s.push(c)) =~= esc_str(s) + esc_char(c));
    }
}

/// The compact text of a JSON value.
pub open spec fn ser_val(v: JsonV) -> Seq<char>
    decreases v, 1int,
{
    match v {
        JsonV::Str(s) => seq!['"'] + esc_str(s) + seq!['"'],
        JsonV::Int(n) => dec_digits(n as nat),
        JsonV::Arr(items) => seq!['['] + ser_items(items) + seq![']'],
        JsonV::Obj(fields) => seq!['{'] + ser_fields(fields) + seq!['}'],
    }
}

/// The comma-separated texts of array elements.
pub open spec fn ser_items(items: Seq<JsonV>) -> Seq<char>
    decreases items, 0int,
{
    if items.len() == 0 {
        Seq::empty()
    } else if items.len() == 1 {
        ser_val(items[0])
    } else {
        ser_val(items[0]) + seq![','] + ser_items(items.drop_first())
    }
}

/// The comma-separated `"key":value` texts of object fields.
pub open spec fn ser_fields(fields: Seq<(Seq<char>, JsonV)>) -> Seq<char>
    decreases fields, 0int,
{
    if fields.len() == 0 {
        Seq::empty()
    } else {
        let head = seq!['"'] + esc_str(fields[0].0) + seq!['"', ':'] + ser_val(fields[0].1);
        if fields.len() == 1 {
            head
        } else {
            head + seq![','] + ser_fields(fields.drop_first())
        }
    }
}

/// The decimal digit character for `d`.
fn digit_char(d: u64) -> (r: char)
    requires
        d < 10,
    ensures
        r == digit_of(d as nat),
{
    let c = char_from_u32(48 + (d as u32));
    c.unwrap()
}

/// The lowercase hexadecimal digit character for `d`.
fn hex_char(d: u32) -> (r: char)
    requires
        d < 16,
    ensures
        r == hex_of(d as nat),
{
    if d < 10 {
        char_from_u32(48 + d).unwrap()
    } else {
        char_from_u32(87 + d).unwrap()
    }
}

/// Write the decimal digits of `n`.
fn write_int(n: u64, out: &mut Vec<char>)
    ensures
        final(out)@ == old(out)@ + dec_digits(n as nat),
    decreases n,
{
    if n < 10 {
        out.push(digit_char(n));
    } else {
        write_int(n / 10, out);
        out.push(digit_char(n % 10));
    }
    proof {
        assert(out@ =~= old(out)@ + dec_digits(n as nat));
    }
}

/// Write one character of a string body, escaped.
fn write_escaped_char(c: char, out: &mut Vec<char>)
    ensures
        final(out)@ == old(out)@ + esc_char(c),
{
    if c == '"' {
        out.push('\\');
        out.push('"');
    } else if c == '\\' {
        out.push('\\');
        out.push('\\');
    } else if c == '\n' {
        out.push('\\');
        out.push('n');
    } else if c == '\t' {
        out.push('\\');
        out.push('t');
    } else if c == '\r' {
        out.push('\\');
        out.push('r');
    } else if c as u32 == 8 {
        out.push('\\');
        out.push('b');
    } else if c as u32 == 12 {
        out.push('\\');
        out.push('f');
    } else if (c as u32) < 32 {
        out.push('\\');
        out.push('u');
        out.push('0');
        out.push('0');
        out.push(hex_char((c as u32) / 16));
        out.push(hex_char((c as u32) % 16));
    } else {
        out.push(c);
    }
    proof {
        assert(out@ =~= old(out)@ + esc_char(c));
    }
}

/// Write a quoted, escaped string literal.
fn write_string(s: &String, out: &mut Vec<char>)
    ensures
        final(out)@ == old(out)@ + seq!['"'] + esc_str(s@) + seq!['"'],
{
    let chars = string_to_chars(s.as_str());
    out.push('"');
    let mut i: usize = 0;
    while i < chars.len()
        invariant
            i <= chars.len(),
            chars@ == s@,
            out@ == old(out)@ + seq!['"'] + esc_str(s@.take(i as int)),
        decreases chars.len() - i,
    {
        write_escaped_char(chars[i], out);
        proof {
            assert(s@.take(i + 1 as int) =~= s@.take(i as int).push(s@[i as int]));
            lemma_esc_str_snoc(s@.take(i as int), s@[i as int]);
        }
        i = i + 1;
    }
    out.push('"');
    proof {
        assert(s@.take(s@.len() as int) =~= s@);
        assert(out@ =~= old(out)@ + seq!['"'] + esc_str(s@) + seq!['"']);
    }
}

/// Write the compact text of `v`.
fn write_val(v: &Json, out: &mut Vec<char>)
    ensures
        final(out)@ == old(out)@ + ser_val(v.deep()),
    decreases v, 1int, 0int,
{
    match v {
        Json::Str(s) => {
            write_string(s, out);
        },
        Json::Int(n) => {
            write_int(*n, out);
        },
        Json::Arr(items) => {
            out.push('[');
            if items.len() > 0 {
                write_items(items, 0, out);
            }
            out.push(']');
            proof {
                lemma_deep_list_index(items@);
                assert(deep_list(items@).skip(0) =~= deep_list(items@));
                assert(out@ =~= old(out)@ + ser_val(v.deep()));
            }
        },
        Json::Obj(fields) => {
            out.push('{');
            if fields.len() > 0 {
                write_fields(fields, 0, out);
            }
            out.push('}');
            proof {
                lemma_deep_fields_index(fields@);
                assert(deep_fields(fields@).skip(0) =~= deep_fields(fields@));
                assert(out@ =~= old(out)@ + ser_val(v.deep()));
            }
        },
    }
}

/// Write the elements of `items` from `from` on, comma separated.
fn write_items(items: &Vec<Json>, from: usize, out: &mut Vec<char>)
    requires
        from < items@.len(),
    ensures
        final(out)@ == old(out)@ + ser_items(deep_list(items@).skip(from as int)),
    decreases items@, 0int, items@.len() - from,
{
    proof {
        lemma_deep_list_index(items@);
    }
    write_val(&items[from], out);
    if items.len() - from > 1 {
        out.push(',');
        write_items(items, from + 1, out);
        proof {
            assert(deep_list(items@).skip(from as int).drop_first() =~= deep_list(items@).skip(
                from + 1 as int,
            ));
            assert(out@ =~= old(out)@ + ser_items(deep_list(items@).skip(from as int)));
        }
    } else {
        proof {
            assert(deep_list(items@).skip(from as int).len() == 1);
            assert(out@ =~= old(out)@ + ser_items(deep_list(items@).skip(from as int)));
        }
    }
}

/// Write the fields of `fields` from `from` on, comma separated.
fn write_fields(fields: &Vec<(String, Json)>, from: usize, out: &mut Vec<char>)
    requires
        from < fields@.len(),
    ensures
        final(out)@ == old(out)@ + ser_fields(deep_fields(fields@).skip(from as int)),
    decreases fields@, 0int, fields@.len() - from,
{
    proof {
        lemma_deep_fields_index(fields@);
    }
    write_string(&fields[from].0, out);
    out.push(':');
    write_val(&fields[from].1, out);
    if fields.len() - from > 1 {
        out.push(',');
        write_fields(fields, from + 1, out);
        proof {
            assert(deep_fields(fields@).skip(from as int).drop_first() =~= deep_fields(
                fields@,
            ).skip(from + 1 as int));
            assert(out@ =~= old(out)@ + ser_fields(deep_fields(fields@).skip(from as int)));
        }
    } else {
        proof {
            assert(deep_fields(fields@).skip(from as int).len() == 1);
            assert(out@ =~= old(out)@ + ser_fields(deep_fields(fields@).skip(from as int)));
        }
    }
}

/// The compact text of `v`, as a string.
pub fn json_to_string(v: &Json) -> (r: String)
    ensures
        r@ == ser_val(v.deep()),
{
    let mut out: Vec<char> = Vec::new();
    write_val(v, &mut out);
    chars_to_string(&out)
}

/// JSON whitespace.
pub open spec fn is_json_ws(c: char) -> bool {
    c == ' ' || c == '\t' || c == '\n' || c == '\r'
}

/// The first position at or after `i` that does not hold whitespace.
pub open spec fn skip_ws(s: Seq<char>, i: int) -> int
    decreases s.len() - i,
{
    if 0 <= i < s.len() && is_json_ws(s[i]) {
        skip_ws(s, i + 1)
    } else {
        i
    }
}

/// `skip_ws` stays within the input and stops on a non-blank.
pub proof fn lemma_skip_ws_bounds(s: Seq<char>, i: int)
    requires
        0 <= i <= s.len(),
    ensures
        i <= skip_ws(s, i) <= s.len(),
        skip_ws(s, i) < s.len() ==> !is_json_ws(s[skip_ws(s, i)]),
    decreases s.len() - i,
{
    if i < s.len() && is_json_ws(s[i]) {
        lemma_skip_ws_bounds(s, i + 1);
    }
}

/// A decimal digit character.
pub open spec fn is_digit(c: char) -> bool {
    48 <= c as u32 <= 57
}

/// The value of a decimal digit character.
pub open spec fn digit_val(c: char) -> u64
    recommends
        is_digit(c),
{
    (c as u32 - 48) as u64
}

/// The value of a hexadecimal digit character, or `None`.
pub open spec fn hex_val(c: char) -> Option<u32> {
    if 48 <= c as u32 <= 57 {
        Some((c as u32 - 48) as u32)
    } else if 97 <= c as u32 <= 102 {
        Some((c as u32 - 87) as u32)
    } else if 65 <= c as u32 <= 70 {
        Some((c as u32 - 55) as u32)
    } else {
        None
    }
}

/// What a single-letter escape stands for, or `None` if it is not one.
pub open spec fn unesc_char(c: char) -> Option<char> {
    if c == '"' {
        Some('"')
    } else if c == '\\' {
        Some('\\')
    } else if c == '/' {
        Some('/')
    } else if c == 'n' {
        Some('\n')
    } else if c == 't' {
        Some('\t')
    } else if c == 'r' {
        Some('\r')
    } else if c == 'b' {
        Some((8 as u32) as char)
    } else if c == 'f' {
        Some((12 as u32) as char)
    } else {
        None
    }
}

/// Parse a string body from just after the opening quote to just after the
/// closing quote.  Raw control characters, bad escapes and `\u` values
/// outside the scalar range are refused.
pub open spec fn parse_str_body(s: Seq<char>, i: int) -> Option<(Seq<char>, int)>
    decreases s.len() - i,
{
    if i < 0 || i >= s.len() {
        None
    } else if s[i] == '"' {
        Some((Seq::empty(), i + 1))
    } else if s[i] == '\\' {
        if i + 1 >= s.len() {
            None
        } else if s[i + 1] == 'u' {
            if i + 6 > s.len() {
                None
            } else {
                match (hex_val(s[i + 2]), hex_val(s[i + 3]), hex_val(s[i + 4]), hex_val(s[i + 5])) {
                    (Some(h1), Some(h2), Some(h3), Some(h4)) => {
                        let cp = (h1 * 4096 + h2 * 256 + h3 * 16 + h4) as u32;
                        if is_unicode_scalar(cp) {
                            match parse_str_body(s, i + 6) {
                                Some((t, p)) => Some((seq![cp as char] + t, p)),
                                None => None,
                            }
                        } else {
                            None
                        }
                    },
                    _ => None,
                }
            }
        } else {
            match unesc_char(s[i + 1]) {
                Some(u) => match parse_str_body(s, i + 2) {
                    Some((t, p)) => Some((seq![u] + t, p)),
                    None => None,
                },
                None => None,
            }
        }
    } else if (s[i] as u32) < 32 {
        None
    } else {
        match parse_str_body(s, i + 1) {
            Some((t, p)) => Some((seq![s[i]] + t, p)),
            None => None,
        }
    }
}

/// A parsed string body ends past its opening position.
pub proof fn lemma_parse_str_body_advances(s: Seq<char>, i: int)
    ensures
        parse_str_body(s, i) matches Some((t, p)) ==> i < p <= s.len(),
    decreases s.len() - i,
{
    if 0 <= i < s.len() {
        lemma_parse_str_body_advances(s, i + 1);
        if i + 2 <= s.len() {
            lemma_parse_str_body_advances(s, i + 2);
        }
        if i + 6 <= s.len() {
            lemma_parse_str_body_advances(s, i + 6);
        }
    }
}

/// Parse a run of decimal digits left to right into `acc`, refusing values
/// that do not fit in a `u64`.
pub open spec fn parse_digits(s: Seq<char>, i: int, acc: u64) -> Option<(u64, int)>
    decreases s.len() - i,
{
    if 0 <= i < s.len() && is_digit(s[i]) {
        let d = digit_val(s[i]);
        if acc > (u64::MAX - d) / 10 {
            None
        } else {
            parse_digits(s, i + 1, (acc * 10 + d) as u64)
        }
    } else {
        Some((acc, i))
    }
}

/// A digit run ends within the input, and past its first digit.
pub proof fn lemma_parse_digits_advances(s: Seq<char>, i: int, acc: u64)
    requires
        0 <= i <= s.len(),
    ensures
        parse_digits(s, i, acc) matches Some((n, p)) ==> i <= p <= s.len() && (p < s.len()
            ==> !is_digit(s[p])),
        0 <= i < s.len() && is_digit(s[i]) ==> (parse_digits(s, i, acc) matches Some((n, p)) ==> i
            < p),
    decreases s.len() - i,
{
    if 0 <= i < s.len() && is_digit(s[i]) {
        let d = digit_val(s[i]);
        if acc <= (u64::MAX - d) / 10 {
            lemma_parse_digits_advances(s, i + 1, (acc * 10 + d) as u64);
        }
    }
}

/// Parse one JSON value starting at `i`, leading whitespace allowed.
pub open spec fn parse_val(s: Seq<char>, i: int) -> Option<(JsonV, int)>
    decreases s.len() - i, 2int,
{
    if i < 0 || i > s.len() {
        None
    } else {
        proof {
            lemma_skip_ws_bounds(s, i);
        }
        let j = skip_ws(s, i);
        if j >= s.len() {
            None
        } else if s[j] == '"' {
            match parse_str_body(s, j + 1) {
                Some((t, p)) => Some((JsonV::Str(t), p)),
                None => None,
            }
        } else if s[j] == '[' {
            proof {
                lemma_skip_ws_bounds(s, j + 1);
            }
            let k = skip_ws(s, j + 1);
            if k < s.len() && s[k] == ']' {
                Some((JsonV::Arr(Seq::empty()), k + 1))
            } else {
                match parse_items(s, j + 1) {
                    Some((items, p)) => if p < s.len() && s[p] == ']' {
                        Some((JsonV::Arr(items), p + 1))
                    } else {
                        None
                    },
                    None => None,
                }
            }
        } else if s[j] == '{' {
            proof {
                lemma_skip_ws_bounds(s, j + 1);
            }
            let k = skip_ws(s, j + 1);
            if k < s.len() && s[k] == '}' {
                Some((JsonV::Obj(Seq::empty()), k + 1))
            } else {
                match parse_fields(s, j + 1) {
                    Some((fields, p)) => if p < s.len() && s[p] == '}' {
                        Some((JsonV::Obj(fields), p + 1))
                    } else {
                        None
                    },
                    None => None,
                }
            }
        } else if is_digit(s[j]) {
            match parse_digits(s, j, 0) {
                Some((n, p)) => Some((JsonV::Int(n), p)),
                None => None,
            }
        } else {
            None
        }
    }
}

/// Parse one or more comma-separated values; the returned position has
/// trailing whitespace already skipped.
pub open spec fn parse_items(s: Seq<char>, i: int) -> Option<(Seq<JsonV>, int)>
    decreases s.len() - i, 3int,
{
    if i < 0 || i > s.len() {
        None
    } else {
        match parse_val(s, i) {
            None => None,
            Some((v, j)) => if j <= i || j > s.len() {
                None
            } else {
                proof {
                    lemma_skip_ws_bounds(s, j);
                }
                let k = skip_ws(s, j);
                if k < s.len() && s[k] == ',' {
                    match parse_items(s, k + 1) {
                        Some((rest, p)) => Some((seq![v] + rest, p)),
                        None => None,
                    }
                } else {
                    Some((seq![v], k))
                }
            },
        }
    }
}

/// Parse one or more comma-separated `"key": value` fields; the returned
/// position has trailing whitespace already skipped.
pub open spec fn parse_fields(s: Seq<char>, i: int) -> Option<(Seq<(Seq<char>, JsonV)>, int)>
    decreases s.len() - i, 3int,
{
    if i < 0 || i > s.len() {
        None
    } else {
        proof {
            lemma_skip_ws_bounds(s, i);
        }
        let k = skip_ws(s, i);
        if k >= s.len() || s[k] != '"' {
            None
        } else {
            match parse_str_body(s, k + 1) {
                None => None,
                Some((key, j)) => if j < k + 2 || j > s.len() {
                    None
                } else {
                    proof {
                        lemma_skip_ws_bounds(s, j);
                    }
                    let m = skip_ws(s, j);
                    if m >= s.len() || s[m] != ':' {
                        None
                    } else {
                        match parse_val(s, m + 1) {
                            None => None,
                            Some((v, p)) => if p <= m || p > s.len() {
                                None
                            } else {
                                proof {
                                    lemma_skip_ws_bounds(s, p);
                                }
                                let q = skip_ws(s, p);
                                if q < s.len() && s[q] == ',' {
                                    match parse_fields(s, q + 1) {
                                        Some((rest, r2)) => Some((seq![(key, v)] + rest, r2)),
                                        None => None,
                                    }
                                } else {
                                    Some((seq![(key, v)], q))
                                }
                            },
                        }
                    }
                },
            }
        }
    }
}

/// Parse a whole document: one value with nothing but whitespace around it.
pub open spec fn parse_json_spec(s: Seq<char>) -> Option<JsonV> {
    match parse_val(s, 0) {
        Some((v, p)) => if skip_ws(s, p) == s.len() {
            Some(v)
        } else {
            None
        },
        None => None,
    }
}

/// Skip whitespace, walking the characters.
fn skip_ws_x(s: &Vec<char>, i: usize) -> (r: usize)
    requires
        i <= s@.len(),
    ensures
        r as int == skip_ws(s@, i as int),
        i <= r <= s@.len(),
{
    let mut j = i;
    while j < s.len() && (s[j] == ' ' || s[j] == '\t' || s[j] == '\n' || s[j] == '\r')
        invariant
            i <= j <= s@.len(),
            skip_ws(s@, i as int) == skip_ws(s@, j as int),
        decreases s@.len() - j,
    {
        j = j + 1;
    }
    j
}

/// Exec `hex_val`.
fn hex_val_x(c: char) -> (r: Option<u32>)
    ensures
        r == hex_val(c),
{
    let u = c as u32;
    if 48 <= u && u <= 57 {
        Some(u - 48)
    } else if 97 <= u && u <= 102 {
        Some(u - 87)
    } else if 65 <= u && u <= 70 {
        Some(u - 55)
    } else {
        None
    }
}

/// Exec `unesc_char`.
fn unesc_char_x(c: char) -> (r: Option<char>)
    ensures
        r == unesc_char(c),
{
    if c == '"' {
        Some('"')
    } else if c == '\\' {
        Some('\\')
    } else if c == '/' {
        Some('/')
    } else if c == 'n' {
        Some('\n')
    } else if c == 't' {
        Some('\t')
    } else if c == 'r' {
        Some('\r')
    } else if c == 'b' {
        Some(char_from_u32(8).unwrap())
    } else if c == 'f' {
        Some(char_from_u32(12).unwrap())
    } else {
        None
    }
}

/// Exec `parse_str_body`.
fn parse_str_body_x(s: &Vec<char>, i: usize) -> (r: Option<(Vec<char>, usize)>)
    requires
        i <= s@.len(),
    ensures
        r matches Some((t, p)) ==> parse_str_body(s@, i as int) == Some((t@, p as int)) && p
            <= s@.len(),
        r is None ==> parse_str_body(s@, i as int) is None,
    decreases s@.len() - i,
{
    if i >= s.len() {
        return None;
    }
    let c = s[i];
    if c == '"' {
        return Some((Vec::new(), i + 1));
    }
    if c == '\\' {
        if i + 1 >= s.len() {
            return None;
        }
        let e = s[i + 1];
        if e == 'u' {
            if s.len() - i < 6 {
                return None;
            }
            match (hex_val_x(s[i + 2]), hex_val_x(s[i + 3]), hex_val_x(s[i + 4]), hex_val_x(
                s[i + 5],
            )) {
                (Some(h1), Some(h2), Some(h3), Some(h4)) => {
                    let cp = h1 * 4096 + h2 * 256 + h3 * 16 + h4;
                    match char_from_u32(cp) {
                        Some(ch) => match parse_str_body_x(s, i + 6) {
                            Some((t, p)) => {
                                let mut t2 = t;
                                t2.insert(0, ch);
                                proof {
                                    assert(t2@ =~= seq![ch] + t@);
                                }
                                Some((t2, p))
                            },
                            None => None,
                        },
                        None => None,
                    }
                },
                _ => None,
            }
        } else {
            match unesc_char_x(e) {
                Some(u) => match parse_str_body_x(s, i + 2) {
                    Some((t, p)) => {
                        let mut t2 = t;
                        t2.insert(0, u);
                        proof {
                            assert(t2@ =~= seq![u] + t@);
                        }
                        Some((t2, p))
                    },
                    None => None,
                },
                None => None,
            }
        }
    } else if (c as u32) < 32 {
        None
    } else {
        match parse_str_body_x(s, i + 1) {
            Some((t, p)) => {
                let mut t2 = t;
                t2.insert(0, c);
                proof {
                    assert(t2@ =~= seq![c] + t@);
                }
                Some((t2, p))
            },
            None => None,
        }
    }
}

/// Exec `parse_digits`.
fn parse_digits_x(s: &Vec<char>, i: usize, acc: u64) -> (r: Option<(u64, usize)>)
    requires
        i <= s@.len(),
    ensures
        r matches Some((n, p)) ==> parse_digits(s@, i as int, acc) == Some((n, p as int)) && p
            <= s@.len(),
        r is None ==> parse_digits(s@, i as int, acc) is None,
    decreases s@.len() - i,
{
    if i < s.len() {
        let u = s[i] as u32;
        if 48 <= u && u <= 57 {
            let d = (u - 48) as u64;
            let limit = (u64::MAX - d) / 10;
            if acc > limit {
                return None;
            }
            return parse_digits_x(s, i + 1, acc * 10 + d);
        }
    }
    Some((acc, i))
}

/// Exec `parse_val`.
pub(crate) fn parse_val_x(s: &Vec<char>, i: usize) -> (r: Option<(Json, usize)>)
    requires
        i <= s@.len(),
    ensures
        r matches Some((v, p)) ==> parse_val(s@, i as int) == Some((v.deep(), p as int)) && p
            <= s@.len(),
        r is None ==> parse_val(s@, i as int) is None,
    decreases s@.len() - i, 2int, 0int,
{
    let j = skip_ws_x(s, i);
    if j >= s.len() {
        return None;
    }
    let c = s[j];
    if c == '"' {
        match parse_str_body_x(s, j + 1) {
            Some((t, p)) => {
                let st = chars_to_string(&t);
                Some((Json::Str(st), p))
            },
            None => None,
        }
    } else if c == '[' {
        let k = skip_ws_x(s, j + 1);
        if k < s.len() && s[k] == ']' {
            proof {
                assert(deep_list(Seq::<Json>::empty()) =~= Seq::<JsonV>::empty());
            }
            Some((Json::Arr(Vec::new()), k + 1))
        } else {
            match parse_items_x(s, j + 1) {
                Some((items, p)) => if p < s.len() && s[p] == ']' {
                    Some((Json::Arr(items), p + 1))
                } else {
                    None
                },
                None => None,
            }
        }
    } else if c == '{' {
        let k = skip_ws_x(s, j + 1);
        if k < s.len() && s[k] == '}' {
            proof {
                assert(deep_fields(Seq::<(String, Json)>::empty()) =~= Seq::<(
                    Seq<char>,
                    JsonV,
                )>::empty());
            }
            Some((Json::Obj(Vec::new()), k + 1))
        } else {
            match parse_fields_x(s, j + 1) {
                Some((fields, p)) => if p < s.len() && s[p] == '}' {
                    Some((Json::Obj(fields), p + 1))
                } else {
                    None
                },
                None => None,
            }
        }
    } else if 48 <= (c as u32) && (c as u32) <= 57 {
        match parse_digits_x(s, j, 0) {
            Some((n, p)) => Some((Json::Int(n), p)),
            None => None,
        }
    } else {
        None
    }
}

/// Exec `parse_items`.
fn parse_items_x(s: &Vec<char>, i: usize) -> (r: Option<(Vec<Json>, usize)>)
    requires
        i <= s@.len(),
    ensures
        r matches Some((items, p)) ==> parse_items(s@, i as int) == Some(
            (deep_list(items@), p as int),
        ) && p <= s@.len(),
        r is None ==> parse_items(s@, i as int) is None,
    decreases s@.len() - i, 3int, 0int,
{
    match parse_val_x(s, i) {
        None => None,
        Some((v, j)) => {
            if j <= i {
                return None;
            }
            let k = skip_ws_x(s, j);
            if k < s.len() && s[k] == ',' {
                match parse_items_x(s, k + 1) {
                    Some((rest, p)) => {
                        let mut items = rest;
                        let ghost pre = items@;
                        items.insert(0, v);
                        proof {
                            assert(items@.drop_first() =~= pre);
                            assert(items@[0] == v);
                            assert(deep_list(items@) =~= seq![v.deep()] + deep_list(pre));
                        }
                        Some((items, p))
                    },
                    None => None,
                }
            } else {
                let items = vec![v];
                proof {
                    assert(items@ =~= seq![v]);
                    assert(items@.drop_first() =~= Seq::<Json>::empty());
                    assert(deep_list(Seq::<Json>::empty()) == Seq::<JsonV>::empty());
                    assert(deep_list(items@) =~= seq![v.deep()]);
                }
                Some((items, k))
            }
        },
    }
}

/// Exec `parse_fields`.
fn parse_fields_x(s: &Vec<char>, i: usize) -> (r: Option<(Vec<(String, Json)>, usize)>)
    requires
        i <= s@.len(),
    ensures
        r matches Some((fields, p)) ==> parse_fields(s@, i as int) == Some(
            (deep_fields(fields@), p as int),
        ) && p <= s@.len(),
        r is None ==> parse_fields(s@, i as int) is None,
    decreases s@.len() - i, 3int, 0int,
{
    let k = skip_ws_x(s, i);
    if k >= s.len() || s[k] != '"' {
        return None;
    }
    match parse_str_body_x(s, k + 1) {
        None => None,
        Some((key, j)) => {
            if j < k + 2 {
                return None;
            }
            let m = skip_ws_x(s, j);
            if m >= s.len() || s[m] != ':' {
                return None;
            }
            match parse_val_x(s, m + 1) {
                None => None,
                Some((v, p)) => {
                    if p <= m {
                        return None;
                    }
                    let key_s = chars_to_string(&key);
                    let q = skip_ws_x(s, p);
                    if q < s.len() && s[q] == ',' {
                        match parse_fields_x(s, q + 1) {
                            Some((rest, r2)) => {
                                let mut fields = rest;
                                let ghost pre = fields@;
                                fields.insert(0, (key_s, v));
                                proof {
                                    assert(fields@.drop_first() =~= pre);
                                    assert(fields@[0] == (key_s, v));
                                    assert(deep_fields(fields@) =~= seq![(key@, v.deep())]
                                        + deep_fields(pre));
                                }
                                Some((fields, r2))
                            },
                            None => None,
                        }
                    } else {
                        let fields = vec![(key_s, v)];
                        proof {
                            assert(fields@ =~= seq![(key_s, v)]);
                            assert(fields@.drop_first() =~= Seq::<(String, Json)>::empty());
                            assert(deep_fields(Seq::<(String, Json)>::empty()) == Seq::<(
                                Seq<char>,
                                JsonV,
                            )>::empty());
                            assert(deep_fields(fields@) =~= seq![(key@, v.deep())]);
                        }
                        Some((fields, q))
                    }
                },
            }
        },
    }
}

/// Parse a whole document from a string.
pub fn parse_json(s: &str) -> (r: Option<Json>)
    ensures
        r matches Some(v) ==> parse_json_spec(s@) == Some(v.deep()),
        r is None ==> parse_json_spec(s@) is None,
{
    let chars = string_to_chars(s);
    match parse_val_x(&chars, 0) {
        Some((v, p)) => {
            let q = skip_ws_x(&chars, p);
            if q == chars.len() {
                Some(v)
            } else {
                None
            }
        },
        None => None,
    }
}

/// Every successful parse ends past where it started and within the input.
pub proof fn lemma_parse_advances(s: Seq<char>, i: int)
    ensures
        parse_val(s, i) matches Some((v, j)) ==> i < j <= s.len(),
        parse_items(s, i) matches Some((items, j)) ==> i < j <= s.len(),
        parse_fields(s, i) matches Some((fields, j)) ==> i < j <= s.len(),
    decreases s.len() - i,
{
    if 0 <= i <= s.len() {
        lemma_skip_ws_bounds(s, i);
        let j = skip_ws(s, i);
        if j < s.len() {
            lemma_parse_str_body_advances(s, j + 1);
            lemma_parse_digits_advances(s, j, 0);
            if j + 1 <= s.len() {
                lemma_skip_ws_bounds(s, j + 1);
                lemma_parse_advances(s, j + 1);
            }
        }
        // parse_items at i: the head value is covered by the cases above;
        // the tail parse starts past the separator.
        match parse_val(s, i) {
            Some((v0, j0)) => {
                if i < j0 <= s.len() {
                    lemma_skip_ws_bounds(s, j0);
                    let k = skip_ws(s, j0);
                    if k < s.len() && s[k] == ',' {
                        lemma_parse_advances(s, k + 1);
                    }
                }
            },
            None => {},
        }
        // parse_fields at i.
        let k2 = skip_ws(s, i);
        if k2 < s.len() && s[k2] == '"' {
            lemma_parse_str_body_advances(s, k2 + 1);
            match parse_str_body(s, k2 + 1) {
                Some((key, j2)) => {
                    if k2 + 2 <= j2 <= s.len() {
                        lemma_skip_ws_bounds(s, j2);
                        let m = skip_ws(s, j2);
                        if m < s.len() && s[m] == ':' {
                            lemma_parse_advances(s, m + 1);
                            match parse_val(s, m + 1) {
                                Some((v3, p3)) => {
                                    if m < p3 <= s.len() {
                                        lemma_skip_ws_bounds(s, p3);
                                        let q = skip_ws(s, p3);
                                        if q < s.len() && s[q] == ',' {
                                            lemma_parse_advances(s, q + 1);
                                        }
                                    }
                                },
                                None => {},
                            }
                        }
                    }
                },
                None => {},
            }
        }
    }
}

/// `skip_ws` stands still before a non-blank character or at the end.
pub proof fn lemma_skip_ws_noop(s: Seq<char>, i: int)
    requires
        0 <= i <= s.len(),
        i == s.len() || !is_json_ws(s[i]),
    ensures
        skip_ws(s, i) == i,
{
}

/// Two adjacent pieces of a subrange are subranges of their own.
pub proof fn lemma_subrange_concat(s: Seq<char>, i: int, a: Seq<char>, b: Seq<char>)
    requires
        0 <= i,
        i + a.len() + b.len() <= s.len(),
        s.subrange(i, i + a.len() + b.len()) == a + b,
    ensures
        s.subrange(i, i + a.len()) == a,
        s.subrange(i + a.len(), i + a.len() + b.len()) == b,
{
    assert forall|k: int| 0 <= k < a.len() implies s[i + k] == a[k] by {
        assert(s.subrange(i, i + a.len() + b.len())[k] == (a + b)[k]);
        assert(s.subrange(i, i + a.len() + b.len())[k] == s[i + k]);
        assert((a + b)[k] == a[k]);
    }
    assert forall|k: int| 0 <= k < b.len() implies s[i + a.len() + k] == b[k] by {
        assert(s.subrange(i, i + a.len() + b.len())[a.len() + k] == (a + b)[a.len() + k]);
        assert(s.subrange(i, i + a.len() + b.len())[a.len() + k] == s[i + a.len() + k]);
        assert((a + b)[a.len() + k] == b[k]);
    }
    assert(s.subrange(i, i + a.len()) =~= a);
    assert(s.subrange(i + a.len(), i + a.len() + b.len()) =~= b);
}

/// Powers of ten.
pub open spec fn pow10(k: nat) -> nat
    decreases k,
{
    if k == 0 {
        1
    } else {
        10 * pow10((k - 1) as nat)
    }
}

/// Every character of `d` is a decimal digit.
pub open spec fn all_digits(d: Seq<char>) -> bool {
    forall|i: int| 0 <= i < d.len() ==> is_digit(#[trigger] d[i])
}

/// The number a run of digit characters denotes.
pub open spec fn digits_val(d: Seq<char>) -> nat
    decreases d.len(),
{
    if d.len() == 0 {
        0
    } else {
        digit_val(d[0]) as nat * pow10((d.len() - 1) as nat) + digits_val(d.drop_first())
    }
}

/// The digit character of `n` is a digit denoting `n`.
pub proof fn lemma_digit_of(n: nat)
    requires
        n < 10,
    ensures
        is_digit(digit_of(n)),
        digit_val(digit_of(n)) == n,
{
    assert(digit_of(n) as u32 == 48 + n);
}

/// Appending one digit multiplies the value by ten.
pub proof fn lemma_digits_val_snoc(d: Seq<char>, c: char)
    requires
        all_digits(d),
        is_digit(c),
    ensures
        all_digits(d.push(c)),
        digits_val(d.push(c)) == digits_val(d) * 10 + digit_val(c),
    decreases d.len(),
{
    if d.len() == 0 {
        assert(d.push(c)[0] == c);
        assert(d.push(c).drop_first() =~= Seq::<char>::empty());
        assert(digits_val(Seq::<char>::empty()) == 0);
        assert(pow10(0) == 1);
        assert(digits_val(d.push(c)) == digit_val(c) as nat * 1 + 0);
        assert(digits_val(d) == 0);
    } else {
        assert(d.push(c)[0] == d[0]);
        assert(d.push(c).drop_first() =~= d.drop_first().push(c));
        lemma_digits_val_snoc(d.drop_first(), c);
        let v0 = digit_val(d[0]) as nat;
        let p = pow10((d.len() - 1) as nat);
        assert(pow10(d.len() as nat) == 10 * p);
        assert(digits_val(d.push(c)) == v0 * (10 * p) + (digits_val(d.drop_first()) * 10
            + digit_val(c)));
        assert(v0 * (10 * p) + (digits_val(d.drop_first()) * 10 + digit_val(c)) == (v0 * p
            + digits_val(d.drop_first())) * 10 + digit_val(c)) by (nonlinear_arith);
    }
}

/// The decimal digits of `n` are digits and denote `n`.
pub proof fn lemma_dec_digits_val(n: nat)
    ensures
        dec_digits(n).len() >= 1,
        all_digits(dec_digits(n)),
        digits_val(dec_digits(n)) == n,
        is_digit(dec_digits(n)[0]),
    decreases n,
{
    if n < 10 {
        lemma_digit_of(n);
        assert(dec_digits(n) =~= seq![digit_of(n)]);
        assert(dec_digits(n).drop_first() =~= Seq::<char>::empty());
        assert(digits_val(Seq::<char>::empty()) == 0);
        assert(pow10(0) == 1);
        assert(digits_val(dec_digits(n)) == n * 1 + 0);
    } else {
        lemma_dec_digits_val(n / 10);
        lemma_digit_of(n % 10);
        assert(dec_digits(n) =~= dec_digits(n / 10).push(digit_of(n % 10)));
        lemma_digits_val_snoc(dec_digits(n / 10), digit_of(n % 10));
        assert(digits_val(dec_digits(n)) == (n / 10) * 10 + n % 10);
    }
}

/// Parsing a run of digits accumulates its value onto `acc` and stops at
/// the first non-digit.
pub proof fn lemma_parse_digit_run(s: Seq<char>, i: int, d: Seq<char>, acc: u64)
    requires
        0 <= i,
        i + d.len() <= s.len(),
        s.subrange(i, i + d.len()) == d,
        all_digits(d),
        i + d.len() == s.len() || !is_digit(s[i + d.len()]),
        acc * pow10(d.len() as nat) + digits_val(d) <= u64::MAX,
    ensures
        parse_digits(s, i, acc) == Some(
            ((acc * pow10(d.len() as nat) + digits_val(d)) as u64, i + d.len()),
        ),
    decreases d.len(),
{
    if d.len() == 0 {
        assert(pow10(0) == 1);
        assert(acc * 1 == acc) by (nonlinear_arith);
    } else {
        assert(s[i] == d[0]);
        let v0 = digit_val(d[0]);
        let p = pow10((d.len() - 1) as nat);
        assert(pow10(d.len() as nat) == 10 * p);
        assert(p >= 1) by {
            lemma_pow10_pos((d.len() - 1) as nat);
        }
        // The whole value bounds the first accumulation step.
        assert(acc * 10 + v0 <= acc * (10 * p) + (v0 * p + digits_val(d.drop_first())))
            by (nonlinear_arith)
            requires
                p >= 1,
                acc >= 0,
                v0 >= 0,
                digits_val(d.drop_first()) >= 0,
        ;
        assert(digits_val(d) == v0 as nat * p + digits_val(d.drop_first()));
        assert(acc * 10 + v0 <= u64::MAX);
        assert(acc <= (u64::MAX - v0) / 10);
        let acc2 = (acc * 10 + v0) as u64;
        assert(s.subrange(i + 1, i + d.len()) =~= d.drop_first());
        assert(acc2 * pow10((d.len() - 1) as nat) + digits_val(d.drop_first()) == acc * pow10(
            d.len() as nat,
        ) + digits_val(d)) by (nonlinear_arith)
            requires
                acc2 == acc * 10 + v0,
                pow10(d.len() as nat) == 10 * p,
                p == pow10((d.len() - 1) as nat),
                digits_val(d) == v0 as nat * p + digits_val(d.drop_first()),
        ;
        lemma_parse_digit_run(s, i + 1, d.drop_first(), acc2);
    }
}

/// Powers of ten are positive.
pub proof fn lemma_pow10_pos(k: nat)
    ensures
        pow10(k) >= 1,
    decreases k,
{
    if k > 0 {
        lemma_pow10_pos((k - 1) as nat);
    }
}

/// A hexadecimal digit character parses back to its value.
pub proof fn lemma_hex_of(h: nat)
    requires
        h < 16,
    ensures
        hex_val(hex_of(h)) == Some(h as u32),
{
    if h < 10 {
        assert(hex_of(h) as u32 == 48 + h);
    } else {
        assert(hex_of(h) as u32 == 87 + h);
    }
}

/// Parsing an escaped string body up to its closing quote gives the text
/// back.
pub proof fn lemma_parse_esc_str(s: Seq<char>, i: int, t: Seq<char>)
    requires
        0 <= i,
        i + esc_str(t).len() + 1 <= s.len(),
        s.subrange(i, i + esc_str(t).len()) == esc_str(t),
        s[i + esc_str(t).len()] == '"',
    ensures
        parse_str_body(s, i) == Some((t, i + esc_str(t).len() + 1)),
    decreases t.len(),
{
    if t.len() == 0 {
        assert(esc_str(t).len() == 0);
        assert(s[i] == '"');
    } else {
        let c = t[0];
        let e = esc_char(c);
        let rest = esc_str(t.drop_first());
        assert(esc_str(t) == e + rest);
        lemma_subrange_concat(s, i, e, rest);
        assert forall|k: int| 0 <= k < e.len() implies s[i + k] == e[k] by {
            assert(s.subrange(i, i + e.len())[k] == e[k]);
        }
        assert(s[i + esc_str(t).len()] == '"');
        assert(i + e.len() + rest.len() == i + esc_str(t).len());
        lemma_parse_esc_str(s, i + e.len(), t.drop_first());
        assert(seq![c] + t.drop_first() =~= t);
        if c == '"' || c == '\\' || c == '\n' || c == '\t' || c == '\r' || c as u32 == 8
            || c as u32 == 12 {
            assert(e.len() == 2);
            assert(s[i] == '\\');
            assert(s[i + 1] == e[1]);
            assert(e[1] != 'u');
            vstd::utf8::char_u32_cast(c, c as u32);
            assert(unesc_char(e[1]) == Some(c));
        } else if (c as u32) < 32 {
            assert(e.len() == 6);
            assert(s[i] == '\\');
            assert(s[i + 1] == 'u');
            assert(s[i + 2] == '0');
            assert(s[i + 3] == '0');
            assert(s[i + 4] == hex_of((c as u32 / 16) as nat));
            assert(s[i + 5] == hex_of((c as u32 % 16) as nat));
            assert(hex_val('0') == Some(0u32)) by {
                assert('0' as u32 == 48);
            }
            lemma_hex_of((c as u32 / 16) as nat);
            lemma_hex_of((c as u32 % 16) as nat);
            let cp = ((0 * 4096 + 0 * 256 + (c as u32 / 16) * 16 + (c as u32 % 16)) as u32);
            assert(cp == c as u32);
            assert(is_unicode_scalar(cp));
            vstd::utf8::char_u32_cast(c, c as u32);
            assert(cp as char == c);
        } else {
            assert(e =~= seq![c]);
            assert(s[i] == c);
            assert(c != '"' && c != '\\' && c as u32 >= 32);
        }
    }
}

/// The first character of a serialized value: never whitespace and never a
/// closing delimiter, and it names the value's shape.
pub proof fn lemma_ser_first(v: JsonV)
    ensures
        ser_val(v).len() >= 1,
        !is_json_ws(ser_val(v)[0]),
        ser_val(v)[0] != ']',
        ser_val(v)[0] != ',',
        ser_val(v)[0] != '}',
        v matches JsonV::Str(t) ==> ser_val(v)[0] == '"',
        v matches JsonV::Int(n) ==> is_digit(ser_val(v)[0]),
        v matches JsonV::Arr(items) ==> ser_val(v)[0] == '[',
        v matches JsonV::Obj(fields) ==> ser_val(v)[0] == '{',
{
    match v {
        JsonV::Str(t) => {
            assert(ser_val(v)[0] == '"');
        },
        JsonV::Int(n) => {
            lemma_dec_digits_val(n as nat);
            assert(is_digit(ser_val(v)[0]));
            assert(' ' as u32 == 32 && '\t' as u32 == 9 && '\n' as u32 == 10 && '\r' as u32
                == 13);
            assert(']' as u32 == 93 && ',' as u32 == 44 && '}' as u32 == 125);
        },
        JsonV::Arr(items) => {
            assert(ser_val(v)[0] == '[');
        },
        JsonV::Obj(fields) => {
            assert(ser_val(v)[0] == '{');
        },
    }
}

/// A closing delimiter or separator is not a digit.
pub proof fn lemma_delimiters_not_digits()
    ensures
        !is_digit(']'),
        !is_digit(','),
        !is_digit('}'),
        !is_digit(':'),
        !is_json_ws(']'),
        !is_json_ws(','),
        !is_json_ws('}'),
        !is_json_ws(':'),
        !is_json_ws('"'),
{
    assert(']' as u32 == 93 && ',' as u32 == 44 && '}' as u32 == 125 && ':' as u32 == 58);
}

/// Parsing a serialized value gives the value back, ending right after its
/// text.  A serialized integer additionally needs a non-digit after it, so
/// the digits are not extended.
pub proof fn lemma_rt_val(s: Seq<char>, i: int, v: JsonV)
    requires
        0 <= i,
        i + ser_val(v).len() <= s.len(),
        s.subrange(i, i + ser_val(v).len()) == ser_val(v),
        v matches JsonV::Int(n) ==> (i + ser_val(v).len() == s.len() || !is_digit(
            s[i + ser_val(v).len()],
        )),
    ensures
        parse_val(s, i) == Some((v, i + ser_val(v).len())),
    decreases v, 1int,
{
    lemma_ser_first(v);
    lemma_delimiters_not_digits();
    let l = ser_val(v).len() as int;
    assert forall|k: int| 0 <= k < l implies s[i + k] == ser_val(v)[k] by {
        assert(s.subrange(i, i + l)[k] == ser_val(v)[k]);
    }
    lemma_skip_ws_noop(s, i);
    match v {
        JsonV::Str(t) => {
            let esc = esc_str(t);
            assert(ser_val(v) == seq!['"'] + esc + seq!['"']);
            assert(ser_val(v).len() == esc.len() + 2);
            assert(s[i + 0] == ser_val(v)[0]);
            assert(s[i] == '"');
            assert forall|k: int| 0 <= k < esc.len() implies s[i + 1 + k] == esc[k] by {
                assert(s[i + (1 + k)] == ser_val(v)[1 + k]);
                assert(ser_val(v)[1 + k] == (seq!['"'] + esc + seq!['"'])[1 + k]);
            }
            assert(s.subrange(i + 1, i + 1 + esc.len()) =~= esc);
            assert(s[i + 1 + esc.len()] == '"') by {
                assert(s[i + (1 + esc.len() as int)] == ser_val(v)[1 + esc.len() as int]);
            }
            lemma_parse_esc_str(s, i + 1, t);
            assert(skip_ws(s, i) == i);
            assert(parse_str_body(s, i + 1) == Some((t, i + 1 + esc.len() as int + 1)));
            assert(parse_val(s, i) == Some((JsonV::Str(t), i + 1 + esc.len() as int + 1)));
        },
        JsonV::Int(n) => {
            lemma_dec_digits_val(n as nat);
            assert(s[i] == ser_val(v)[0]);
            assert(is_digit(s[i]));
            assert('"' as u32 == 34 && '[' as u32 == 91 && '{' as u32 == 123);
            assert(s[i] != '"' && s[i] != '[' && s[i] != '{');
            lemma_parse_digit_run(s, i, dec_digits(n as nat), 0);
            assert(0 * pow10(dec_digits(n as nat).len() as nat) == 0) by (nonlinear_arith);
        },
        JsonV::Arr(items) => {
            assert(s[i] == '[');
            if items.len() == 0 {
                assert(ser_items(items) == Seq::<char>::empty());
                assert(ser_val(v) =~= seq!['[', ']']);
                assert(s[i + 1] == ']');
                lemma_skip_ws_noop(s, i + 1);
                assert(items =~= Seq::<JsonV>::empty());
            } else {
                let li = ser_items(items).len() as int;
                assert(ser_val(v) == seq!['['] + ser_items(items) + seq![']']);
                assert forall|k: int| 0 <= k < li implies s[i + 1 + k] == ser_items(items)[k] by {
                    assert(s[i + (1 + k)] == ser_val(v)[1 + k]);
                }
                assert(s.subrange(i + 1, i + 1 + li) =~= ser_items(items));
                assert(s[i + 1 + li] == ']') by {
                    assert(s[i + (1 + li)] == ser_val(v)[1 + li]);
                }
                lemma_ser_first(items[0]);
                assert(ser_items(items)[0] == ser_val(items[0])[0]);
                assert(s[i + 1] == ser_val(items[0])[0]);
                lemma_skip_ws_noop(s, i + 1);
                lemma_rt_items(s, i + 1, items);
            }
        },
        JsonV::Obj(fields) => {
            assert(s[i] == '{');
            if fields.len() == 0 {
                assert(ser_fields(fields) == Seq::<char>::empty());
                assert(ser_val(v) =~= seq!['{', '}']);
                assert(s[i + 1] == '}');
                lemma_skip_ws_noop(s, i + 1);
                assert(fields =~= Seq::<(Seq<char>, JsonV)>::empty());
            } else {
                let lf = ser_fields(fields).len() as int;
                assert(ser_val(v) == seq!['{'] + ser_fields(fields) + seq!['}']);
                assert forall|k: int| 0 <= k < lf implies s[i + 1 + k] == ser_fields(fields)[k]
                    by {
                    assert(s[i + (1 + k)] == ser_val(v)[1 + k]);
                }
                assert(s.subrange(i + 1, i + 1 + lf) =~= ser_fields(fields));
                assert(s[i + 1 + lf] == '}') by {
                    assert(s[i + (1 + lf)] == ser_val(v)[1 + lf]);
                }
                assert(ser_fields(fields)[0] == '"');
                assert(s[i + 1] == '"');
                lemma_skip_ws_noop(s, i + 1);
                lemma_rt_fields(s, i + 1, fields);
            }
        },
    }
}

/// Parsing serialized array elements followed by `]` gives the elements
/// back, ending at the bracket.
pub proof fn lemma_rt_items(s: Seq<char>, i: int, items: Seq<JsonV>)
    requires
        items.len() >= 1,
        0 <= i,
        i + ser_items(items).len() < s.len(),
        s.subrange(i, i + ser_items(items).len()) == ser_items(items),
        s[i + ser_items(items).len()] == ']',
    ensures
        parse_items(s, i) == Some((items, i + ser_items(items).len())),
    decreases items, 0int,
{
    lemma_ser_first(items[0]);
    lemma_delimiters_not_digits();
    let l0 = ser_val(items[0]).len() as int;
    let li = ser_items(items).len() as int;
    if items.len() == 1 {
        assert(ser_items(items) == ser_val(items[0]));
        lemma_rt_val(s, i, items[0]);
        lemma_skip_ws_noop(s, i + l0);
        assert(items =~= seq![items[0]]);
    } else {
        assert(ser_items(items) == ser_val(items[0]) + seq![','] + ser_items(
            items.drop_first(),
        ));
        assert forall|k: int| 0 <= k < li implies s[i + k] == ser_items(items)[k] by {
            assert(s.subrange(i, i + li)[k] == ser_items(items)[k]);
        }
        assert(s.subrange(i, i + l0) =~= ser_val(items[0]));
        assert((ser_val(items[0]) + seq![','])[l0] == ',');
        assert(ser_items(items)[l0] == ',');
        assert(s[i + l0] == ',');
        let rest = ser_items(items.drop_first());
        assert forall|k: int| 0 <= k < rest.len() implies s[i + l0 + 1 + k] == rest[k] by {
            assert(s[i + (l0 + 1 + k)] == ser_items(items)[l0 + 1 + k]);
        }
        assert(s.subrange(i + l0 + 1, i + l0 + 1 + rest.len()) =~= rest);
        assert(i + l0 + 1 + rest.len() == i + li);
        lemma_rt_val(s, i, items[0]);
        lemma_skip_ws_noop(s, i + l0);
        lemma_rt_items(s, i + l0 + 1, items.drop_first());
        assert(seq![items[0]] + items.drop_first() =~= items);
    }
}

/// Parsing serialized object fields followed by `}` gives the fields back,
/// ending at the brace.
pub proof fn lemma_rt_fields(s: Seq<char>, i: int, fields: Seq<(Seq<char>, JsonV)>)
    requires
        fields.len() >= 1,
        0 <= i,
        i + ser_fields(fields).len() < s.len(),
        s.subrange(i, i + ser_fields(fields).len()) == ser_fields(fields),
        s[i + ser_fields(fields).len()] == '}',
    ensures
        parse_fields(s, i) == Some((fields, i + ser_fields(fields).len())),
    decreases fields, 0int,
{
    lemma_delimiters_not_digits();
    let key = fields[0].0;
    let value = fields[0].1;
    let esc = esc_str(key);
    let head = seq!['"'] + esc + seq!['"', ':'] + ser_val(value);
    let lf = ser_fields(fields).len() as int;
    let lh = head.len() as int;
    assert forall|k: int| 0 <= k < lf implies s[i + k] == ser_fields(fields)[k] by {
        assert(s.subrange(i, i + lf)[k] == ser_fields(fields)[k]);
    }
    if fields.len() == 1 {
        assert(ser_fields(fields) == head);
    } else {
        assert(ser_fields(fields) == head + seq![','] + ser_fields(fields.drop_first()));
    }
    assert forall|k: int| 0 <= k < lh implies s[i + k] == head[k] by {
        assert(s[i + k] == ser_fields(fields)[k]);
    }
    // the head decomposes: quote, escaped key, quote, colon, value
    assert(head[0] == '"');
    assert(s[i + 0] == head[0]);
    assert(s[i] == '"');
    lemma_skip_ws_noop(s, i);
    assert forall|k: int| 0 <= k < esc.len() implies s[i + 1 + k] == esc[k] by {
        assert(s[i + (1 + k)] == head[1 + k]);
    }
    assert(s.subrange(i + 1, i + 1 + esc.len()) =~= esc);
    assert(s[i + 1 + esc.len()] == '"') by {
        assert(s[i + (1 + esc.len() as int)] == head[1 + esc.len() as int]);
    }
    lemma_parse_esc_str(s, i + 1, key);
    let j = i + esc.len() + 2;
    assert(s[j] == ':') by {
        assert(s[i + (esc.len() as int + 2)] == head[esc.len() as int + 2]);
    }
    lemma_skip_ws_noop(s, j);
    let lv = ser_val(value).len() as int;
    assert forall|k: int| 0 <= k < lv implies s[j + 1 + k] == ser_val(value)[k] by {
        assert(s[i + (esc.len() as int + 3 + k)] == head[esc.len() as int + 3 + k]);
    }
    assert(s.subrange(j + 1, j + 1 + lv) =~= ser_val(value));
    let p = j + 1 + lv;
    assert(p == i + lh);
    if fields.len() == 1 {
        assert(s[p] == '}');
        lemma_rt_val(s, j + 1, value);
        lemma_skip_ws_noop(s, p);
        assert(fields =~= seq![(key, value)]);
    } else {
        assert(s[p] == ',') by {
            assert(s[i + lh] == ser_fields(fields)[lh]);
        }
        lemma_rt_val(s, j + 1, value);
        lemma_skip_ws_noop(s, p);
        let rest = ser_fields(fields.drop_first());
        assert forall|k: int| 0 <= k < rest.len() implies s[p + 1 + k] == rest[k] by {
            assert(s[i + (lh + 1 + k)] == ser_fields(fields)[lh + 1 + k]);
        }
        assert(s.subrange(p + 1, p + 1 + rest.len()) =~= rest);
        assert(p + 1 + rest.len() == i + lf);
        lemma_rt_fields(s, p + 1, fields.drop_first());
        assert(seq![(key, value)] + fields.drop_first() =~= fields);
    }
}

/// A document serialized and parsed back is the document: the serializer
/// and the parser are exact inverses at the text level.
pub proof fn lemma_json_text_round_trip(v: JsonV)
    ensures
        parse_json_spec(ser_val(v)) == Some(v),
{
    let s = ser_val(v);
    assert(s.subrange(0, s.len() as int) =~= s);
    lemma_rt_val(s, 0, v);
    lemma_skip_ws_noop(s, s.len() as int);
}

} // verus!

