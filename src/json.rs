//! JSON response bodies: an object with one string member.

use vstd::prelude::*;

verus! {

/// The lowercase hexadecimal digits, in order of value.
pub open spec fn hex_digits() -> Seq<char> {
    seq!['0', '1', '2', '3', '4', '5', '6', '7', '8', '9', 'a', 'b', 'c', 'd', 'e', 'f']
}

/// How one character is written inside a JSON string: the quote and the
/// backslash escaped, the control characters with a short escape where JSON
/// has one and as `\u00XX` otherwise, every other character as it is.
pub open spec fn escape_char(c: char) -> Seq<char> {
    let u = c as u32;
    if c == '"' {
        seq!['\\', '"']
    } else if c == '\\' {
        seq!['\\', '\\']
    } else if u == 0x08 {
        seq!['\\', 'b']
    } else if u == 0x09 {
        seq!['\\', 't']
    } else if u == 0x0a {
        seq!['\\', 'n']
    } else if u == 0x0c {
        seq!['\\', 'f']
    } else if u == 0x0d {
        seq!['\\', 'r']
    } else if u < 0x20 {
        seq!['\\', 'u', '0', '0', hex_digits()[(u / 16) as int], hex_digits()[(u % 16) as int]]
    } else {
        seq![c]
    }
}

/// The characters of `s`, each escaped.
pub open spec fn escaped(s: Seq<char>) -> Seq<char>
    decreases s.len(),
{
    if s.len() == 0 {
        Seq::empty()
    } else {
        escaped(s.drop_last()) + escape_char(s.last())
    }
}

/// The JSON string literal for `s`.
pub open spec fn json_quoted(s: Seq<char>) -> Seq<char> {
    seq!['"'] + escaped(s) + seq!['"']
}

/// Relies on `serde_json::to_string` applied to a `str`: the string
/// literal, quoted and escaped as above. Written into a `Vec`, it cannot fail.
#[verifier::external_body]
fn json_string(s: &str) -> (r: Option<String>)
    ensures
        r is Some,
        r->Some_0@ == json_quoted(s@),
{
    serde_json::to_string(s).ok()
}

/// The member that a response object carries.
#[derive(Clone, Copy, Debug, PartialEq, Eq, Structural)]
pub enum Field {
    Message,
    Error,
}

impl Field {
    /// The member's key.
    pub open spec fn key(self) -> Seq<char> {
        match self {
            Field::Message => "message"@,
            Field::Error => "error"@,
        }
    }

    pub fn key_text(self) -> (r: &'static str)
        ensures
            r@ == self.key(),
    {
        match self {
            Field::Message => "message",
            Field::Error => "error",
        }
    }
}

/// The text of a JSON object whose one member has key `key` and the
/// already encoded value `encoded`.
pub open spec fn object_text(key: Seq<char>, encoded: Seq<char>) -> Seq<char> {
    "{\""@ + key + "\":"@ + encoded + "}"@
}

/// Wraps an encoded JSON value as the single member `field` of an object.
pub fn frame_member(field: Field, encoded: &str) -> (r: String)
    ensures
        r@ == object_text(field.key(), encoded@),
{
    let mut out = String::from_str("{\"");
    out.append(field.key_text());
    out.append("\":");
    out.append(encoded);
    out.append("}");
    out
}

/// The body `{"<field>":"<value>"}` with `value` written as a JSON string.
pub open spec fn member_body(field: Field, value: Seq<char>) -> Seq<char> {
    object_text(field.key(), json_quoted(value))
}

/// Encodes `value` as a JSON string and frames it as the member `field`.
pub fn json_member(field: Field, value: &str) -> (r: String)
    ensures
        r@ == member_body(field, value@),
{
    let quoted = json_string(value).unwrap();
    frame_member(field, quoted.as_str())
}

} // verus!
