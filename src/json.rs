//! The JSON body of a generation request.
use vstd::prelude::*;

verus! {

/// The error type of serde_json, carried through opaquely.
#[verifier::external_type_specification]
#[verifier::external_body]
pub struct ExJsonError(serde_json::Error);

/// The lowercase hexadecimal digit characters, in order of value.
pub open spec fn hex_digit_chars() -> Seq<char> {
    seq!['0', '1', '2', '3', '4', '5', '6', '7', '8', '9', 'a', 'b', 'c', 'd', 'e', 'f']
}

/// How one character is written inside a JSON string: the quote, the
/// backslash and the control characters below 0x20 are escaped (by a short
/// form where JSON has one, else as `\u00` and two hex digits); every other
/// character stands as it is.
pub open spec fn json_escape(c: char) -> Seq<char> {
    if c == '"' {
        seq!['\\', '"']
    } else if c == '\\' {
        seq!['\\', '\\']
    } else if c == '\u{8}' {
        seq!['\\', 'b']
    } else if c == '\t' {
        seq!['\\', 't']
    } else if c == '\n' {
        seq!['\\', 'n']
    } else if c == '\u{c}' {
        seq!['\\', 'f']
    } else if c == '\r' {
        seq!['\\', 'r']
    } else if (c as u32) < 0x20 {
        seq![
            '\\',
            'u',
            '0',
            '0',
            hex_digit_chars()[(c as u32 / 16) as int],
            hex_digit_chars()[(c as u32 % 16) as int],
        ]
    } else {
        seq![c]
    }
}

/// The characters of `s`, each escaped by `json_escape`.
pub open spec fn json_escaped(s: Seq<char>) -> Seq<char>
    decreases s.len(),
{
    if s.len() == 0 {
        Seq::empty()
    } else {
        json_escaped(s.drop_last()) + json_escape(s.last())
    }
}

/// `s` written as a JSON string literal: escaped, between double quotes.
pub open spec fn json_quoted(s: Seq<char>) -> Seq<char> {
    seq!['"'] + json_escaped(s) + seq!['"']
}

/// Relies on `serde_json::to_string` on a `str`: it writes the string between
/// double quotes, escaping characters as its `ESCAPE` table and
/// `write_char_escape` do. Its writer is a `Vec<u8>`, which never fails, and a
/// `str` serializes without error, so the result is always `Ok`.
#[verifier::external_body]
fn quote(s: &str) -> (r: Result<String, serde_json::Error>)
    ensures
        r is Ok,
        r->Ok_0@ == json_quoted(s@),
{
    serde_json::to_string(s)
}

/// The body of a generation request: model, prompt, and streaming switched off.
pub open spec fn generate_body_of(model: Seq<char>, prompt: Seq<char>) -> Seq<char> {
    "{\"model\":"@ + json_quoted(model) + ",\"prompt\":"@ + json_quoted(prompt)
        + ",\"stream\":false}"@
}

/// Writes the JSON object `{"model":..,"prompt":..,"stream":false}`.
pub fn generate_body(model: &str, prompt: &str) -> (r: String)
    ensures
        r@ == generate_body_of(model@, prompt@),
{
    let mut r = String::from_str("{\"model\":");
    append_quoted(&mut r, model);
    r.append(",\"prompt\":");
    append_quoted(&mut r, prompt);
    r.append(",\"stream\":false}");
    r
}

/// Appends `s` to `out` as a JSON string literal.
fn append_quoted(out: &mut String, s: &str)
    ensures
        final(out)@ == old(out)@ + json_quoted(s@),
{
    match quote(s) {
        Ok(t) => out.append(t.as_str()),
        Err(_) => {},
    }
}

} // verus!
