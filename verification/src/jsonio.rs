//! The JSON boundary of the payload negotiator and the inbound normalizer.
//!
//! Structured bodies and inbound envelopes arrive as JSON text. Parsing and
//! field extraction go through `serde_json` behind trusted wrappers that
//! hand back plain values; the JSON this crate emits is built here, with a
//! verified string escaper.

use vstd::prelude::*;
use crate::strutil::push_char;

verus! {

/// `serde_json`'s parsed JSON value, declared so that it can be carried
/// through signatures; the crate never looks inside it directly.
#[verifier::external_type_specification]
#[verifier::external_body]
pub struct ExValue(serde_json::Value);

/// The value a JSON text parses to, when it is the text of a JSON
/// object; the parse is a function of the text alone.
pub uninterp spec fn parsed_json_object(s: Seq<char>) -> Option<serde_json::Value>;

/// The value a JSON object holds under a key, if any.
pub uninterp spec fn json_value_at(v: serde_json::Value, key: Seq<char>) -> Option<
    serde_json::Value,
>;

/// The characters of the string a JSON object holds under a key, when it
/// holds a string there.
pub uninterp spec fn json_str_at(v: serde_json::Value, key: Seq<char>) -> Option<Seq<char>>;

/// Whether a JSON value is null.
pub uninterp spec fn json_null_of(v: serde_json::Value) -> bool;

/// The characters of a JSON value, when it is a string.
pub uninterp spec fn json_chars_of(v: serde_json::Value) -> Option<Seq<char>>;

/// The compact JSON text of a value.
pub uninterp spec fn json_text_of(v: serde_json::Value) -> Seq<char>;

/// The characters of an optional string.
pub open spec fn spec_opt_chars(o: Option<String>) -> Option<Seq<char>> {
    match o {
        Some(s) => Some(s@),
        None => None,
    }
}

/// Relies on `serde_json::from_str::<Value>`: returns the parsed value
/// when the text is a JSON object, and nothing when the text is not valid
/// JSON or is valid JSON of another shape; the result is a function of the
/// text alone (deep nesting is a parse error, not a panic).
#[verifier::external_body]
pub(crate) fn json_parse_object(s: &str) -> (r: Option<serde_json::Value>)
    ensures
        r == parsed_json_object(s@),
{
    match serde_json::from_str::<serde_json::Value>(s) {
        Ok(v) => {
            if v.is_object() {
                Some(v)
            } else {
                None
            }
        },
        Err(_) => None,
    }
}

/// Relies on `serde_json::Value::get` and `Value::clone`: the value under
/// `key` when `v` is an object with that key, a function of the value and
/// the key alone; the clone handed back equals the held value.
#[verifier::external_body]
pub(crate) fn json_get_value(v: &serde_json::Value, key: &str) -> (r: Option<serde_json::Value>)
    ensures
        r == json_value_at(*v, key@),
{
    v.get(key).cloned()
}

/// Relies on `serde_json::Value::get` and `Value::as_str`: the string
/// under `key` when `v` is an object holding a string there, a function of
/// the value and the key alone.
#[verifier::external_body]
pub(crate) fn json_get_str(v: &serde_json::Value, key: &str) -> (r: Option<String>)
    ensures
        spec_opt_chars(r) == json_str_at(*v, key@),
{
    v.get(key).and_then(|x| x.as_str()).map(|s| s.to_string())
}

/// Relies on `serde_json::Value::is_null`, a function of the value alone.
#[verifier::external_body]
pub(crate) fn json_is_null(v: &serde_json::Value) -> (r: bool)
    ensures
        r == json_null_of(*v),
{
    v.is_null()
}

/// Relies on `serde_json::Value::as_str`: the characters of `v` when it is
/// a JSON string, a function of the value alone.
#[verifier::external_body]
pub(crate) fn json_as_str(v: &serde_json::Value) -> (r: Option<String>)
    ensures
        spec_opt_chars(r) == json_chars_of(*v),
{
    v.as_str().map(|s| s.to_string())
}

/// Relies on `serde_json::Value`'s `Display`: the compact JSON text of the
/// value, a function of the value alone; used to forward a blob verbatim.
#[verifier::external_body]
pub(crate) fn json_to_text(v: &serde_json::Value) -> (r: String)
    ensures
        r@ == json_text_of(*v),
{
    v.to_string()
}

/// The lowercase hexadecimal digit character for `d` in `0 ..= 15`.
pub open spec fn hex_lower(d: int) -> char {
    if d == 0 {
        '0'
    } else if d == 1 {
        '1'
    } else if d == 2 {
        '2'
    } else if d == 3 {
        '3'
    } else if d == 4 {
        '4'
    } else if d == 5 {
        '5'
    } else if d == 6 {
        '6'
    } else if d == 7 {
        '7'
    } else if d == 8 {
        '8'
    } else if d == 9 {
        '9'
    } else if d == 10 {
        'a'
    } else if d == 11 {
        'b'
    } else if d == 12 {
        'c'
    } else if d == 13 {
        'd'
    } else if d == 14 {
        'e'
    } else {
        'f'
    }
}

/// How one character appears inside a JSON string literal: `"` and `\` are
/// escaped, the five control characters with short escapes use them, the
/// remaining control characters use `\u00XX`, and every other character
/// stands as itself.
pub open spec fn json_esc_char(c: char) -> Seq<char> {
    if c == '"' {
        seq!['\\', '"']
    } else if c == '\\' {
        seq!['\\', '\\']
    } else if c == '\u{8}' {
        seq!['\\', 'b']
    } else if c == '\t' {
        seq!['\\', 't']
    } else if c == '\n' {
        seq!['\\', 'n']
    } else if c == '\u{c}' {
        seq!['\\', 'f']
    } else if c == '\r' {
        seq!['\\', 'r']
    } else if (c as u32) < 32 {
        seq!['\\', 'u', '0', '0', hex_lower(c as u32 as int / 16), hex_lower(c as u32 as int % 16)]
    } else {
        seq![c]
    }
}

/// The escaped form of a character string, without the surrounding quotes.
pub open spec fn json_escaped(s: Seq<char>) -> Seq<char>
    decreases s.len(),
{
    if s.len() == 0 {
        Seq::empty()
    } else {
        json_esc_char(s[0]) + json_escaped(s.skip(1))
    }
}

/// A JSON string literal holding `s`: quotes around the escaped form.
pub open spec fn json_string(s: Seq<char>) -> Seq<char> {
    seq!['"'] + json_escaped(s) + seq!['"']
}

proof fn lemma_json_escaped_snoc(s: Seq<char>, c: char)
    ensures
        json_escaped(s.push(c)) == json_escaped(s) + json_esc_char(c),
    decreases s.len(),
{
    if s.len() == 0 {
        assert(s.push(c)[0] == c);
        assert(s.push(c).skip(1) =~= Seq::<char>::empty());
        assert(json_escaped(s.push(c).skip(1)) =~= Seq::<char>::empty());
        assert(json_escaped(s.push(c)) =~= json_esc_char(c) + Seq::<char>::empty());
        assert(json_escaped(s.push(c)) =~= json_escaped(s) + json_esc_char(c));
    } else {
        assert(s.push(c)[0] == s[0]);
        assert(s.push(c).skip(1) =~= s.skip(1).push(c));
        lemma_json_escaped_snoc(s.skip(1), c);
        assert(json_escaped(s.push(c)) =~= json_escaped(s) + json_esc_char(c));
    }
}

fn hex_lower_char(d: u32) -> (c: char)
    requires
        d < 16,
    ensures
        c == hex_lower(d as int),
{
    if d == 0 {
        '0'
    } else if d == 1 {
        '1'
    } else if d == 2 {
        '2'
    } else if d == 3 {
        '3'
    } else if d == 4 {
        '4'
    } else if d == 5 {
        '5'
    } else if d == 6 {
        '6'
    } else if d == 7 {
        '7'
    } else if d == 8 {
        '8'
    } else if d == 9 {
        '9'
    } else if d == 10 {
        'a'
    } else if d == 11 {
        'b'
    } else if d == 12 {
        'c'
    } else if d == 13 {
        'd'
    } else if d == 14 {
        'e'
    } else {
        'f'
    }
}

fn push_json_escaped(out: &mut String, c: char)
    ensures
        final(out)@ == old(out)@ + json_esc_char(c),
{
    if c == '"' {
        push_char(out, '\\');
        push_char(out, '"');
    } else if c == '\\' {
        push_char(out, '\\');
        push_char(out, '\\');
    } else if c == '\u{8}' {
        push_char(out, '\\');
        push_char(out, 'b');
    } else if c == '\t' {
        push_char(out, '\\');
        push_char(out, 't');
    } else if c == '\n' {
        push_char(out, '\\');
        push_char(out, 'n');
    } else if c == '\u{c}' {
        push_char(out, '\\');
        push_char(out, 'f');
    } else if c == '\r' {
        push_char(out, '\\');
        push_char(out, 'r');
    } else if (c as u32) < 32 {
        let code = c as u32;
        push_char(out, '\\');
        push_char(out, 'u');
        push_char(out, '0');
        push_char(out, '0');
        push_char(out, hex_lower_char(code / 16));
        push_char(out, hex_lower_char(code % 16));
    } else {
        push_char(out, c);
    }
    proof {
        assert(out@ =~= old(out)@ + json_esc_char(c));
    }
}

/// Renders `s` as a JSON string literal: quotes around the escaped
/// characters.
pub fn json_quote(s: &str) -> (r: String)
    ensures
        r@ == json_string(s@),
{
    let mut out = String::new();
    push_char(&mut out, '"');
    let n = s.unicode_len();
    let mut i: usize = 0;
    while i < n
        invariant
            n == s@.len(),
            i <= n,
            out@ == seq!['"'] + json_escaped(s@.take(i as int)),
        decreases n - i,
    {
        let c = s.get_char(i);
        push_json_escaped(&mut out, c);
        proof {
            assert(s@.take(i as int).push(c) =~= s@.take(i + 1 as int));
            lemma_json_escaped_snoc(s@.take(i as int), c);
        }
        i = i + 1;
    }
    push_char(&mut out, '"');
    proof {
        assert(s@.take(n as int) =~= s@);
        assert(out@ =~= json_string(s@));
    }
    out
}

} // verus!
