use vstd::prelude::*;
use crate::text::hex_digit;

verus! {

#[verifier::external_type_specification]
#[verifier::external_body]
pub struct ExJsonError(serde_json::Error);

/// How `serde_json` writes one character inside a JSON string literal.
pub open spec fn json_escape(c: char) -> Seq<char> {
    if c == '"' {
        seq!['\\', '"']
    } else if c == '\\' {
        seq!['\\', '\\']
    } else if c == '\u{8}' {
        seq!['\\', 'b']
    } else if c == '\t' {
        seq!['\\', 't']
    } else if c == '\n' {
        seq!['\\', 'n']
    } else if c == '\u{c}' {
        seq!['\\', 'f']
    } else if c == '\r' {
        seq!['\\', 'r']
    } else if (c as u32) < 0x20 {
        seq!['\\', 'u', '0', '0', hex_digit((c as int) / 16), hex_digit((c as int) % 16)]
    } else {
        seq![c]
    }
}

/// The characters of a text, each written as `json_escape` writes it.
pub open spec fn json_escaped(text: Seq<char>) -> Seq<char>
    decreases text.len(),
{
    if text.len() == 0 {
        Seq::<char>::empty()
    } else {
        json_escape(text[0]) + json_escaped(text.drop_first())
    }
}

/// The JSON string literal of a text: quoted, with its characters escaped.
pub open spec fn json_string(text: Seq<char>) -> Seq<char> {
    seq!['"'] + json_escaped(text) + seq!['"']
}

/// Calls `serde_json::to_string` on a string slice.
///
/// Claimed, from serde_json's string writer: the call succeeds (it writes into a
/// vector, which never fails) and yields the text between double quotes, with `"`
/// and `\` preceded by a backslash, the control characters written `\b`, `\t`,
/// `\n`, `\f`, `\r` or `\u00xx` (lowercase hex), and every other character as is.
#[verifier::external_body]
fn serde_json_quote(text: &str) -> (quoted: Result<String, serde_json::Error>)
    ensures
        quoted is Ok,
        quoted matches Ok(q) ==> q@ == json_string(text@),
{
    serde_json::to_string(text)
}

/// The JSON string literal of a text.
pub fn json_quote(text: &str) -> (quoted: String)
    ensures
        quoted@ == json_string(text@),
{
    match serde_json_quote(text) {
        Ok(q) => q,
        Err(_) => String::new(),
    }
}

} // verus!
