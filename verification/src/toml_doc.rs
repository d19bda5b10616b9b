//! The configuration file's text format: a flat document of section
//! headers and `key = value` lines.
//!
//! The shape covered is what the configuration uses: bare keys, section
//! headers with dotted paths, and values that are basic strings, unsigned
//! integers or arrays of strings.  Blank lines and full-line `#` comments
//! are skipped.  Values share the escape rules and parser of the JSON
//! module, so a string value survives the same round trip.

use vstd::prelude::*;

use crate::json::parse_val;
use crate::json::Json;
use crate::json::JsonV;
use crate::codec::dec_str_seq;
use crate::json::deep_list;
use crate::text::chars_to_string;
use crate::text::string_to_chars;

verus! {

/// One value in a document.
#[derive(Debug)]
pub enum TomlScalar {
    Str(String),
    Int(u64),
    Arr(Vec<String>),
}

/// Mathematical value of a `TomlScalar`.
pub enum ScalarV {
    Str(Seq<char>),
    Int(u64),
    Arr(Seq<Seq<char>>),
}

impl TomlScalar {
    /// The mathematical value of this scalar.
    pub open spec fn deep(self) -> ScalarV {
        match self {
            TomlScalar::Str(s) => ScalarV::Str(s@),
            TomlScalar::Int(n) => ScalarV::Int(n),
            TomlScalar::Arr(items) => ScalarV::Arr(
                Seq::new(items@.len(), |i: int| items@[i]@),
            ),
        }
    }
}

/// One line of a document: a section header or a key-value entry.
#[derive(Debug)]
pub enum TomlItem {
    Header(Vec<String>),
    Entry(String, TomlScalar),
}

/// Mathematical value of a `TomlItem`.
pub enum ItemV {
    Header(Seq<Seq<char>>),
    Entry(Seq<char>, ScalarV),
}

impl TomlItem {
    /// The mathematical value of this line.
    pub open spec fn deep(self) -> ItemV {
        match self {
            TomlItem::Header(path) => ItemV::Header(
                Seq::new(path@.len(), |i: int| path@[i]@),
            ),
            TomlItem::Entry(key, v) => ItemV::Entry(key@, v.deep()),
        }
    }
}

/// The mathematical values of a document's lines.
pub open spec fn deep_items(items: Seq<TomlItem>) -> Seq<ItemV> {
    Seq::new(items.len(), |i: int| items[i].deep())
}

/// A character a bare key may hold.
pub open spec fn is_key_char(c: char) -> bool {
    ||| ('a' <= c && c <= 'z')
    ||| ('A' <= c && c <= 'Z')
    ||| ('0' <= c && c <= '9')
    ||| c == '_'
    ||| c == '-'
}

/// Space or tab.
pub open spec fn is_inline_ws(c: char) -> bool {
    c == ' ' || c == '\t'
}

/// The first position at or after `i` holding neither space nor tab.
pub open spec fn skip_inline_ws(s: Seq<char>, i: int) -> int
    decreases s.len() - i,
{
    if 0 <= i < s.len() && is_inline_ws(s[i]) {
        skip_inline_ws(s, i + 1)
    } else {
        i
    }
}

/// `skip_inline_ws` stays within the input.
pub proof fn lemma_skip_inline_ws_bounds(s: Seq<char>, i: int)
    requires
        0 <= i <= s.len(),
    ensures
        i <= skip_inline_ws(s, i) <= s.len(),
    decreases s.len() - i,
{
    if i < s.len() && is_inline_ws(s[i]) {
        lemma_skip_inline_ws_bounds(s, i + 1);
    }
}

/// The first position at or after `i` past all blanks: spaces, tabs, line
/// breaks and full-line `#` comments.
pub open spec fn skip_blank(s: Seq<char>, i: int) -> int
    decreases s.len() - i,
{
    if 0 <= i < s.len() && (is_inline_ws(s[i]) || s[i] == '\n' || s[i] == '\r') {
        skip_blank(s, i + 1)
    } else if 0 <= i < s.len() && s[i] == '#' {
        proof {
            lemma_skip_comment_bounds(s, i);
        }
        skip_blank(s, skip_comment(s, i))
    } else {
        i
    }
}

/// The position just past a comment's line break (or the end of input).
pub open spec fn skip_comment(s: Seq<char>, i: int) -> int
    decreases s.len() - i,
{
    if 0 <= i < s.len() && s[i] != '\n' {
        skip_comment(s, i + 1)
    } else if 0 <= i < s.len() {
        i + 1
    } else {
        i
    }
}

/// `skip_comment` advances within the input.
pub proof fn lemma_skip_comment_bounds(s: Seq<char>, i: int)
    requires
        0 <= i <= s.len(),
    ensures
        i <= skip_comment(s, i) <= s.len(),
        0 <= i < s.len() ==> i < skip_comment(s, i),
    decreases s.len() - i,
{
    if i < s.len() && s[i] != '\n' {
        lemma_skip_comment_bounds(s, i + 1);
    }
}

/// `skip_blank` stays within the input.
pub proof fn lemma_skip_blank_bounds(s: Seq<char>, i: int)
    requires
        0 <= i <= s.len(),
    ensures
        i <= skip_blank(s, i) <= s.len(),
    decreases s.len() - i,
{
    if 0 <= i < s.len() && (is_inline_ws(s[i]) || s[i] == '\n' || s[i] == '\r') {
        lemma_skip_blank_bounds(s, i + 1);
    } else if 0 <= i < s.len() && s[i] == '#' {
        lemma_skip_comment_bounds(s, i);
        lemma_skip_blank_bounds(s, skip_comment(s, i));
    }
}

/// The end of a bare key starting at `i`.
pub open spec fn key_end(s: Seq<char>, i: int) -> int
    decreases s.len() - i,
{
    if 0 <= i < s.len() && is_key_char(s[i]) {
        key_end(s, i + 1)
    } else {
        i
    }
}

/// `key_end` stays within the input.
pub proof fn lemma_key_end_bounds(s: Seq<char>, i: int)
    requires
        0 <= i <= s.len(),
    ensures
        i <= key_end(s, i) <= s.len(),
    decreases s.len() - i,
{
    if i < s.len() && is_key_char(s[i]) {
        lemma_key_end_bounds(s, i + 1);
    }
}

/// Consume the rest of a line after a value or header: inline whitespace,
/// an optional comment, then a line break or the end of input.  Returns
/// the position of the next line, or `None` if anything else stands there.
pub open spec fn end_of_line(s: Seq<char>, i: int) -> Option<int> {
    if i < 0 || i > s.len() {
        None
    } else {
        let j = skip_inline_ws(s, i);
        if j >= s.len() {
            Some(j)
        } else if s[j] == '#' {
            Some(skip_comment(s, j))
        } else if s[j] == '\n' {
            Some(j + 1)
        } else if s[j] == '\r' && j + 1 < s.len() && s[j + 1] == '\n' {
            Some(j + 2)
        } else {
            None
        }
    }
}

/// `end_of_line` stays within the input.
pub proof fn lemma_end_of_line_bounds(s: Seq<char>, i: int)
    requires
        0 <= i <= s.len(),
    ensures
        end_of_line(s, i) matches Some(p) ==> i <= p <= s.len(),
    decreases s.len() - i,
{
    lemma_skip_inline_ws_bounds(s, i);
    let j = skip_inline_ws(s, i);
    if j < s.len() && s[j] == '#' {
        lemma_skip_comment_bounds(s, j);
    }
}

/// Parse a dotted header path after the opening bracket; the returned
/// position is just past the closing bracket.
pub open spec fn parse_path(s: Seq<char>, i: int) -> Option<(Seq<Seq<char>>, int)>
    decreases s.len() - i,
{
    if i < 0 || i > s.len() {
        None
    } else {
        proof {
            lemma_skip_inline_ws_bounds(s, i);
        }
        let j = skip_inline_ws(s, i);
        if j >= s.len() || !is_key_char(s[j]) {
            None
        } else {
            proof {
                lemma_key_end_bounds(s, j);
            }
            let e = key_end(s, j);
            let key = s.subrange(j, e);
            proof {
                lemma_skip_inline_ws_bounds(s, e);
            }
            let k = skip_inline_ws(s, e);
            if k < s.len() && s[k] == '.' {
                if k + 1 > s.len() {
                    None
                } else {
                    match parse_path(s, k + 1) {
                        Some((rest, p)) => Some((seq![key] + rest, p)),
                        None => None,
                    }
                }
            } else if k < s.len() && s[k] == ']' {
                Some((seq![key], k + 1))
            } else {
                None
            }
        }
    }
}

/// A parsed path ends past where it started, within the input.
pub proof fn lemma_parse_path_advances(s: Seq<char>, i: int)
    ensures
        parse_path(s, i) matches Some((path, p)) ==> i < p <= s.len(),
    decreases s.len() - i,
{
    if 0 <= i <= s.len() {
        lemma_skip_inline_ws_bounds(s, i);
        let j = skip_inline_ws(s, i);
        if j < s.len() && is_key_char(s[j]) {
            lemma_key_end_bounds(s, j);
            let e = key_end(s, j);
            lemma_skip_inline_ws_bounds(s, e);
            let k = skip_inline_ws(s, e);
            if k < s.len() && s[k] == '.' && k + 1 <= s.len() {
                lemma_parse_path_advances(s, k + 1);
            }
        }
    }
}

/// Parse one value: a string, an unsigned integer or an array of strings,
/// using the JSON value grammar and refusing any other document shape.
pub open spec fn parse_scalar(s: Seq<char>, i: int) -> Option<(ScalarV, int)> {
    match parse_val(s, i) {
        Some((JsonV::Str(t), p)) => Some((ScalarV::Str(t), p)),
        Some((JsonV::Int(n), p)) => Some((ScalarV::Int(n), p)),
        Some((JsonV::Arr(items), p)) => match dec_str_seq(items) {
            Some(strs) => Some((ScalarV::Arr(strs), p)),
            None => None,
        },
        _ => None,
    }
}

/// Parse the lines of a document from `i` on.
pub open spec fn parse_lines(s: Seq<char>, i: int) -> Option<Seq<ItemV>>
    decreases s.len() - i,
{
    if i < 0 || i > s.len() {
        None
    } else {
        proof {
            lemma_skip_blank_bounds(s, i);
        }
        let j = skip_blank(s, i);
        if j >= s.len() {
            Some(Seq::empty())
        } else if s[j] == '[' {
            match parse_path(s, j + 1) {
                Some((path, p)) => {
                    proof {
                        lemma_parse_path_advances(s, j + 1);
                        lemma_end_of_line_bounds(s, p);
                    }
                    match end_of_line(s, p) {
                        Some(q) => if q <= j {
                            None
                        } else {
                            match parse_lines(s, q) {
                                Some(rest) => Some(seq![ItemV::Header(path)] + rest),
                                None => None,
                            }
                        },
                        None => None,
                    }
                },
                None => None,
            }
        } else if is_key_char(s[j]) {
            proof {
                lemma_key_end_bounds(s, j);
            }
            let e = key_end(s, j);
            let key = s.subrange(j, e);
            proof {
                lemma_skip_inline_ws_bounds(s, e);
            }
            let k = skip_inline_ws(s, e);
            if k >= s.len() || s[k] != '=' {
                None
            } else {
                match parse_scalar(s, k + 1) {
                    Some((v, p)) => if p <= k || p > s.len() {
                        None
                    } else {
                        proof {
                            lemma_end_of_line_bounds(s, p);
                        }
                        match end_of_line(s, p) {
                            Some(q) => if q <= j {
                                None
                            } else {
                                match parse_lines(s, q) {
                                    Some(rest) => Some(seq![ItemV::Entry(key, v)] + rest),
                                    None => None,
                                }
                            },
                            None => None,
                        }
                    },
                    None => None,
                }
            }
        } else {
            None
        }
    }
}

/// Parse a whole document.
pub open spec fn parse_toml_spec(s: Seq<char>) -> Option<Seq<ItemV>> {
    parse_lines(s, 0)
}

/// Exec `skip_comment`.
fn skip_comment_x(s: &Vec<char>, i: usize) -> (r: usize)
    requires
        i <= s@.len(),
    ensures
        r as int == skip_comment(s@, i as int),
        i <= r <= s@.len(),
{
    let mut j = i;
    while j < s.len() && s[j] != '\n'
        invariant
            i <= j <= s@.len(),
            skip_comment(s@, i as int) == skip_comment(s@, j as int),
        decreases s@.len() - j,
    {
        j = j + 1;
    }
    if j < s.len() {
        j + 1
    } else {
        j
    }
}

/// Exec `skip_blank`.
fn skip_blank_x(s: &Vec<char>, i: usize) -> (r: usize)
    requires
        i <= s@.len(),
    ensures
        r as int == skip_blank(s@, i as int),
        i <= r <= s@.len(),
    decreases s@.len() - i,
{
    if i < s.len() {
        let c = s[i];
        if c == ' ' || c == '\t' || c == '\n' || c == '\r' {
            return skip_blank_x(s, i + 1);
        }
        if c == '#' {
            proof {
                lemma_skip_comment_bounds(s@, i as int);
            }
            let j = skip_comment_x(s, i);
            return skip_blank_x(s, j);
        }
    }
    i
}

/// Exec `skip_inline_ws`.
fn skip_inline_ws_x(s: &Vec<char>, i: usize) -> (r: usize)
    requires
        i <= s@.len(),
    ensures
        r as int == skip_inline_ws(s@, i as int),
        i <= r <= s@.len(),
{
    let mut j = i;
    while j < s.len() && (s[j] == ' ' || s[j] == '\t')
        invariant
            i <= j <= s@.len(),
            skip_inline_ws(s@, i as int) == skip_inline_ws(s@, j as int),
        decreases s@.len() - j,
    {
        j = j + 1;
    }
    j
}

/// Exec `key_end`.
fn key_end_x(s: &Vec<char>, i: usize) -> (r: usize)
    requires
        i <= s@.len(),
    ensures
        r as int == key_end(s@, i as int),
        i <= r <= s@.len(),
{
    let mut j = i;
    while j < s.len() && (('a' <= s[j] && s[j] <= 'z') || ('A' <= s[j] && s[j] <= 'Z') || ('0'
        <= s[j] && s[j] <= '9') || s[j] == '_' || s[j] == '-')
        invariant
            i <= j <= s@.len(),
            key_end(s@, i as int) == key_end(s@, j as int),
        decreases s@.len() - j,
    {
        j = j + 1;
    }
    j
}

/// Exec `end_of_line`.
fn end_of_line_x(s: &Vec<char>, i: usize) -> (r: Option<usize>)
    requires
        i <= s@.len(),
    ensures
        r matches Some(p) ==> end_of_line(s@, i as int) == Some(p as int) && p <= s@.len(),
        r is None ==> end_of_line(s@, i as int) is None,
{
    let j = skip_inline_ws_x(s, i);
    if j >= s.len() {
        Some(j)
    } else if s[j] == '#' {
        proof {
            lemma_skip_comment_bounds(s@, j as int);
        }
        Some(skip_comment_x(s, j))
    } else if s[j] == '\n' {
        Some(j + 1)
    } else if s[j] == '\r' && j + 1 < s.len() && s[j + 1] == '\n' {
        Some(j + 2)
    } else {
        None
    }
}

/// Copy the characters of `s` between `from` and `to` into a string.
fn subrange_string(s: &Vec<char>, from: usize, to: usize) -> (r: String)
    requires
        from <= to <= s@.len(),
    ensures
        r@ == s@.subrange(from as int, to as int),
{
    let mut out: Vec<char> = Vec::new();
    let mut i = from;
    while i < to
        invariant
            from <= i <= to <= s@.len(),
            out@ == s@.subrange(from as int, i as int),
        decreases to - i,
    {
        out.push(s[i]);
        proof {
            assert(s@.subrange(from as int, i + 1 as int) =~= s@.subrange(
                from as int,
                i as int,
            ).push(s@[i as int]));
        }
        i = i + 1;
    }
    chars_to_string(&out)
}

/// Exec `parse_path`.
fn parse_path_x(s: &Vec<char>, i: usize) -> (r: Option<(Vec<String>, usize)>)
    requires
        i <= s@.len(),
    ensures
        r matches Some((path, p)) ==> parse_path(s@, i as int) == Some(
            (Seq::new(path@.len(), |k: int| path@[k]@), p as int),
        ) && p <= s@.len(),
        r is None ==> parse_path(s@, i as int) is None,
    decreases s@.len() - i,
{
    let j = skip_inline_ws_x(s, i);
    if j >= s.len() {
        return None;
    }
    let c = s[j];
    if !(('a' <= c && c <= 'z') || ('A' <= c && c <= 'Z') || ('0' <= c && c <= '9') || c == '_'
        || c == '-') {
        return None;
    }
    let e = key_end_x(s, j);
    let key = subrange_string(s, j, e);
    let k = skip_inline_ws_x(s, e);
    if k < s.len() && s[k] == '.' {
        match parse_path_x(s, k + 1) {
            Some((rest, p)) => {
                let mut path = rest;
                let ghost pre = path@;
                path.insert(0, key);
                proof {
                    assert(Seq::new(path@.len(), |t: int| path@[t]@) =~= seq![
                        s@.subrange(j as int, e as int),
                    ] + Seq::new(pre.len(), |t: int| pre[t]@));
                }
                Some((path, p))
            },
            None => None,
        }
    } else if k < s.len() && s[k] == ']' {
        let path = vec![key];
        proof {
            assert(Seq::new(path@.len(), |t: int| path@[t]@) =~= seq![
                s@.subrange(j as int, e as int),
            ]);
        }
        Some((path, k + 1))
    } else {
        None
    }
}

/// Exec `parse_scalar`.
fn parse_scalar_x(s: &Vec<char>, i: usize) -> (r: Option<(TomlScalar, usize)>)
    requires
        i <= s@.len(),
    ensures
        r matches Some((v, p)) ==> parse_scalar(s@, i as int) == Some((v.deep(), p as int)) && p
            <= s@.len(),
        r is None ==> parse_scalar(s@, i as int) is None,
{
    match crate::json::parse_val_x(s, i) {
        Some((Json::Str(t), p)) => Some((TomlScalar::Str(t), p)),
        Some((Json::Int(n), p)) => Some((TomlScalar::Int(n), p)),
        Some((Json::Arr(items), p)) => {
            match crate::codec::str_vec_at(&items, 0) {
                Some(strs) => {
                    proof {
                        assert(deep_list(items@).skip(0) =~= deep_list(items@));
                    }
                    Some((TomlScalar::Arr(strs), p))
                },
                None => {
                    proof {
                        assert(deep_list(items@).skip(0) =~= deep_list(items@));
                    }
                    None
                },
            }
        },
        Some(_) => None,
        None => None,
    }
}

/// Exec `parse_lines`.
fn parse_lines_x(s: &Vec<char>, i: usize) -> (r: Option<Vec<TomlItem>>)
    requires
        i <= s@.len(),
    ensures
        r matches Some(items) ==> parse_lines(s@, i as int) == Some(deep_items(items@)),
        r is None ==> parse_lines(s@, i as int) is None,
    decreases s@.len() - i,
{
    let j = skip_blank_x(s, i);
    if j >= s.len() {
        let items: Vec<TomlItem> = Vec::new();
        proof {
            assert(deep_items(items@) =~= Seq::<ItemV>::empty());
        }
        return Some(items);
    }
    let c = s[j];
    if c == '[' {
        match parse_path_x(s, j + 1) {
            Some((path, p)) => {
                match end_of_line_x(s, p) {
                    Some(q) => {
                        if q <= j {
                            return None;
                        }
                        match parse_lines_x(s, q) {
                            Some(rest) => {
                                let mut items = rest;
                                let ghost pre = items@;
                                items.insert(0, TomlItem::Header(path));
                                proof {
                                    assert(deep_items(items@) =~= seq![
                                        TomlItem::Header(path).deep(),
                                    ] + deep_items(pre));
                                }
                                Some(items)
                            },
                            None => None,
                        }
                    },
                    None => None,
                }
            },
            None => None,
        }
    } else if ('a' <= c && c <= 'z') || ('A' <= c && c <= 'Z') || ('0' <= c && c <= '9') || c
        == '_' || c == '-' {
        let e = key_end_x(s, j);
        let key = subrange_string(s, j, e);
        let k = skip_inline_ws_x(s, e);
        if k >= s.len() || s[k] != '=' {
            return None;
        }
        match parse_scalar_x(s, k + 1) {
            Some((v, p)) => {
                if p <= k {
                    return None;
                }
                match end_of_line_x(s, p) {
                    Some(q) => {
                        if q <= j {
                            return None;
                        }
                        match parse_lines_x(s, q) {
                            Some(rest) => {
                                let mut items = rest;
                                let ghost pre = items@;
                                let ghost vdeep = v.deep();
                                items.insert(0, TomlItem::Entry(key, v));
                                proof {
                                    assert(items@[0].deep() == ItemV::Entry(
                                        s@.subrange(j as int, e as int),
                                        vdeep,
                                    ));
                                    assert(deep_items(items@) =~= seq![items@[0].deep()]
                                        + deep_items(pre));
                                }
                                Some(items)
                            },
                            None => None,
                        }
                    },
                    None => None,
                }
            },
            None => None,
        }
    } else {
        None
    }
}

/// Parse a whole document.
pub fn parse_toml(s: &str) -> (r: Option<Vec<TomlItem>>)
    ensures
        r matches Some(items) ==> parse_toml_spec(s@) == Some(deep_items(items@)),
        r is None ==> parse_toml_spec(s@) is None,
{
    let chars = string_to_chars(s);
    parse_lines_x(&chars, 0)
}

/// The value under `path` and `key`, walking the lines with the current
/// section in hand: entries count when the section in force equals `path`.
pub open spec fn doc_get_from(
    items: Seq<ItemV>,
    current: Seq<Seq<char>>,
    path: Seq<Seq<char>>,
    key: Seq<char>,
) -> Option<ScalarV>
    decreases items.len(),
{
    if items.len() == 0 {
        None
    } else {
        match items[0] {
            ItemV::Header(p) => doc_get_from(items.drop_first(), p, path, key),
            ItemV::Entry(k, v) => if current == path && k == key {
                Some(v)
            } else {
                doc_get_from(items.drop_first(), current, path, key)
            },
        }
    }
}

/// The first value under `path` and `key` in the document.
pub open spec fn doc_get(items: Seq<ItemV>, path: Seq<Seq<char>>, key: Seq<char>) -> Option<
    ScalarV,
> {
    doc_get_from(items, Seq::empty(), path, key)
}

/// Whether some header names exactly `path`.
pub open spec fn section_present(items: Seq<ItemV>, path: Seq<Seq<char>>) -> bool
    decreases items.len(),
{
    if items.len() == 0 {
        false
    } else {
        match items[0] {
            ItemV::Header(p) => p == path || section_present(items.drop_first(), path),
            ItemV::Entry(k, v) => section_present(items.drop_first(), path),
        }
    }
}

/// Whether two paths hold the same keys.
fn path_eq(a: &Vec<String>, b: &Vec<String>) -> (r: bool)
    ensures
        r == (Seq::new(a@.len(), |i: int| a@[i]@) == Seq::new(b@.len(), |i: int| b@[i]@)),
{
    let ghost av = Seq::new(a@.len(), |i: int| a@[i]@);
    let ghost bv = Seq::new(b@.len(), |i: int| b@[i]@);
    if a.len() != b.len() {
        proof {
            assert(av.len() != bv.len());
        }
        return false;
    }
    let mut i: usize = 0;
    while i < a.len()
        invariant
            i <= a@.len(),
            a@.len() == b@.len(),
            av == Seq::new(a@.len(), |k: int| a@[k]@),
            bv == Seq::new(b@.len(), |k: int| b@[k]@),
            forall|k: int| 0 <= k < i ==> av[k] == bv[k],
        decreases a@.len() - i,
    {
        if !(a[i] == b[i]) {
            proof {
                assert(av[i as int] != bv[i as int]);
            }
            return false;
        }
        i = i + 1;
    }
    proof {
        assert(av =~= bv);
    }
    true
}

/// Exec `doc_get_from`, from line `from` on.
fn doc_get_at<'a>(
    items: &'a Vec<TomlItem>,
    from: usize,
    current: &Vec<String>,
    path: &Vec<String>,
    key: &str,
) -> (r: Option<&'a TomlScalar>)
    requires
        from <= items@.len(),
    ensures
        r matches Some(v) ==> doc_get_from(
            deep_items(items@).skip(from as int),
            Seq::new(current@.len(), |i: int| current@[i]@),
            Seq::new(path@.len(), |i: int| path@[i]@),
            key@,
        ) == Some(v.deep()),
        r is None ==> doc_get_from(
            deep_items(items@).skip(from as int),
            Seq::new(current@.len(), |i: int| current@[i]@),
            Seq::new(path@.len(), |i: int| path@[i]@),
            key@,
        ) is None,
    decreases items@.len() - from,
{
    if from == items.len() {
        proof {
            assert(deep_items(items@).skip(from as int) =~= Seq::<ItemV>::empty());
        }
        return None;
    }
    proof {
        assert(deep_items(items@).skip(from as int)[0] == items@[from as int].deep());
        assert(deep_items(items@).skip(from as int).drop_first() =~= deep_items(items@).skip(
            from as int + 1,
        ));
    }
    match &items[from] {
        TomlItem::Header(p) => doc_get_at(items, from + 1, p, path, key),
        TomlItem::Entry(k, v) => {
            let own = key.to_owned();
            if path_eq(current, path) && *k == own {
                Some(v)
            } else {
                doc_get_at(items, from + 1, current, path, key)
            }
        },
    }
}

/// The first value under `path` and `key` in the document.
pub fn doc_lookup<'a>(items: &'a Vec<TomlItem>, path: &Vec<String>, key: &str) -> (r: Option<
    &'a TomlScalar,
>)
    ensures
        r matches Some(v) ==> doc_get(
            deep_items(items@),
            Seq::new(path@.len(), |i: int| path@[i]@),
            key@,
        ) == Some(v.deep()),
        r is None ==> doc_get(
            deep_items(items@),
            Seq::new(path@.len(), |i: int| path@[i]@),
            key@,
        ) is None,
{
    let current: Vec<String> = Vec::new();
    proof {
        assert(deep_items(items@).skip(0) =~= deep_items(items@));
        assert(Seq::new(0, |i: int| ""@) =~= Seq::<Seq<char>>::empty());
        assert(Seq::new(current@.len(), |i: int| current@[i]@) =~= Seq::<Seq<char>>::empty());
    }
    doc_get_at(items, 0, &current, path, key)
}

/// Whether some header names exactly `path`.
pub fn has_section(items: &Vec<TomlItem>, path: &Vec<String>) -> (r: bool)
    ensures
        r == section_present(deep_items(items@), Seq::new(path@.len(), |i: int| path@[i]@)),
{
    let mut i: usize = 0;
    proof {
        assert(deep_items(items@).skip(0) =~= deep_items(items@));
    }
    while i < items.len()
        invariant
            i <= items@.len(),
            section_present(deep_items(items@), Seq::new(path@.len(), |k: int| path@[k]@))
                == section_present(
                deep_items(items@).skip(i as int),
                Seq::new(path@.len(), |k: int| path@[k]@),
            ),
        decreases items@.len() - i,
    {
        proof {
            assert(deep_items(items@).skip(i as int)[0] == items@[i as int].deep());
            assert(deep_items(items@).skip(i as int).drop_first() =~= deep_items(items@).skip(
                i as int + 1,
            ));
        }
        match &items[i] {
            TomlItem::Header(p) => {
                if path_eq(p, path) {
                    return true;
                }
            },
            TomlItem::Entry(_, _) => {},
        }
        i = i + 1;
    }
    proof {
        assert(deep_items(items@).skip(i as int) =~= Seq::<ItemV>::empty());
    }
    false
}

} // verus!
