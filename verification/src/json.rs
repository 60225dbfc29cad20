//! The JSON that the protocol exchanges: string literals for the documents
//! that the library writes, and the string members of the documents that it
//! reads.

use vstd::pervasive::unreached;
use vstd::prelude::*;

verus! {

/// The lower-case hexadecimal digit for `v`.
pub open spec fn hex_digit(v: int) -> char {
    if v < 10 {
        ((48 + v) as u8) as char
    } else {
        ((87 + v) as u8) as char
    }
}

/// How `c` stands inside a JSON string: the quote, the backslash and the
/// control characters are escaped, every other character stands for itself.
pub open spec fn escaped(c: char) -> Seq<char> {
    if c == '"' {
        seq!['\\', '"']
    } else if c == '\\' {
        seq!['\\', '\\']
    } else if c == '\u{8}' {
        seq!['\\', 'b']
    } else if c == '\t' {
        seq!['\\', 't']
    } else if c == '\n' {
        seq!['\\', 'n']
    } else if c == '\u{c}' {
        seq!['\\', 'f']
    } else if c == '\r' {
        seq!['\\', 'r']
    } else if (c as int) < 32 {
        seq!['\\', 'u', '0', '0', hex_digit(c as int / 16), hex_digit(c as int % 16)]
    } else {
        seq![c]
    }
}

/// The characters of `s`, each as it stands inside a JSON string.
pub open spec fn escaped_text(s: Seq<char>) -> Seq<char>
    decreases s.len(),
{
    if s.len() == 0 {
        Seq::empty()
    } else {
        escaped(s[0]) + escaped_text(s.skip(1))
    }
}

/// The JSON string literal for `s`, quotes included.
pub open spec fn json_string(s: Seq<char>) -> Seq<char> {
    seq!['"'] + escaped_text(s) + seq!['"']
}

/// A parsed JSON document.
#[verifier::external_type_specification]
#[verifier::external_body]
pub struct ExValue(serde_json::Value);

/// The string members of the object that `text` holds as JSON: each name
/// whose value is a string, with that string. `None` where `text` is not
/// JSON, and where it is JSON but no object.
pub uninterp spec fn json_document(text: Seq<char>) -> Option<Map<Seq<char>, Seq<char>>>;

/// The string members of a parsed document.
pub uninterp spec fn string_members(value: serde_json::Value) -> Map<Seq<char>, Seq<char>>;

/// `serde_json::to_string` on a string.
///
/// Trusted: the result is the string between quotes, with the escapes that
/// [`escaped`] lists. The serializer writes into memory, so it does not fail.
#[verifier::external_body]
fn serialize_str(s: &str) -> (res: Option<String>)
    ensures
        res is Some,
        res matches Some(literal) ==> literal@ == json_string(s@),
{
    serde_json::to_string(s).ok()
}

/// `serde_json::from_str` to a `Value`, for a document that is an object.
///
/// Trusted: the parser accepts `text` as an object exactly where
/// [`json_document`] is defined, and the document that is handed back has
/// those string members. Text that is no JSON, and JSON that is no object,
/// give `None`.
#[verifier::external_body]
pub(crate) fn parse(text: &str) -> (res: Option<serde_json::Value>)
    ensures
        match res {
            Some(value) => json_document(text@) == Some(string_members(value)),
            None => json_document(text@) is None,
        },
{
    match serde_json::from_str::<serde_json::Value>(text) {
        Ok(serde_json::Value::Object(members)) => Some(serde_json::Value::Object(members)),
        _ => None,
    }
}

/// `Value::get` by name, for a member that is a string.
///
/// Trusted: the result is the string member of that name, and `None` where
/// the document has no member of that name or its value is no string.
#[verifier::external_body]
pub(crate) fn string_member(value: &serde_json::Value, name: &str) -> (res: Option<String>)
    ensures
        match res {
            Some(s) => string_members(*value).contains_key(name@) && string_members(
                *value,
            )[name@] == s@,
            None => !string_members(*value).contains_key(name@),
        },
{
    match value.get(name) {
        Some(serde_json::Value::String(s)) => Some(s.clone()),
        _ => None,
    }
}

/// The JSON string literal for `s`.
pub fn quote(s: &str) -> (literal: String)
    ensures
        literal@ == json_string(s@),
{
    match serialize_str(s) {
        Some(literal) => literal,
        None => unreached(),
    }
}

} // verus!
