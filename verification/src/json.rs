//! JSON encoding and decoding of the text frames that the server exchanges, done by `serde_json`.
use vstd::prelude::*;

verus! {

/// The error that `serde_json` reports for malformed input.
#[verifier::external_type_specification]
#[verifier::external_body]
pub struct ExJsonError(serde_json::Error);

/// The lower-case hexadecimal digit for `n` (below sixteen).
pub open spec fn hex_digit(n: nat) -> char {
    if n < 10 {
        (('0' as nat) + n) as char
    } else {
        (('a' as nat) + (n - 10)) as char
    }
}

/// How a JSON string literal spells the character `c`: quotes, backslashes and control
/// characters are escaped, everything else stands for itself.
pub open spec fn json_escape_char(c: char) -> Seq<char> {
    if c == '"' {
        seq!['\\', '"']
    } else if c == '\\' {
        seq!['\\', '\\']
    } else if c == '\x08' {
        seq!['\\', 'b']
    } else if c == '\t' {
        seq!['\\', 't']
    } else if c == '\n' {
        seq!['\\', 'n']
    } else if c == '\x0c' {
        seq!['\\', 'f']
    } else if c == '\r' {
        seq!['\\', 'r']
    } else if (c as nat) < 0x20 {
        seq!['\\', 'u', '0', '0', hex_digit((c as nat) / 16), hex_digit((c as nat) % 16)]
    } else {
        seq![c]
    }
}

/// The escaped body of a JSON string literal holding `s`.
pub open spec fn json_escape(s: Seq<char>) -> Seq<char>
    decreases s.len(),
{
    if s.len() == 0 {
        Seq::empty()
    } else {
        json_escape(s.drop_last()) + json_escape_char(s.last())
    }
}

/// The compact JSON text of a one-element array holding the string `s`.
pub open spec fn json_single_string_array(s: Seq<char>) -> Seq<char> {
    seq!['[', '"'] + json_escape(s) + seq!['"', ']']
}

/// The string that the JSON text `text` denotes, if `text` is a JSON string literal
/// (surrounding whitespace allowed).
pub uninterp spec fn json_string_value(text: Seq<char>) -> Option<Seq<char>>;

/// The close code and the reason that the JSON text `text` denotes, if it is an array of an
/// integer that fits in an `i64` and a string literal written without escapes.
pub uninterp spec fn json_close_frame(text: Seq<char>) -> Option<(i64, Seq<char>)>;

/// The strings that the JSON text `text` denotes, if it is an array of string literals.
pub uninterp spec fn json_string_list(text: Seq<char>) -> Option<Seq<Seq<char>>>;

/// The raw JSON texts of the elements of the JSON array `text`, if `text` is an array.
pub uninterp spec fn json_raw_elements(text: Seq<char>) -> Option<Seq<Seq<char>>>;

/// `serde_json::to_string` of the one-element tuple `(s,)`: a compact JSON array holding the
/// string `s`, escaped as `serde_json`'s serializer escapes strings. Serializing a string cannot
/// fail, so the error arm is never taken.
#[verifier::external_body]
pub fn json_encode_single_string(s: &str) -> (r: String)
    ensures
        r@ == json_single_string_array(s@),
{
    serde_json::to_string(&(s,)).unwrap_or_default()
}

/// `serde_json::from_str::<String>`: decodes a JSON string literal. The contract claims that it
/// succeeds exactly where `json_string_value` is defined, and gives that value.
#[verifier::external_body]
pub fn json_decode_string(text: &str) -> (r: Result<String, serde_json::Error>)
    ensures
        r is Ok <==> json_string_value(text@) is Some,
        r matches Ok(v) ==> v@ == json_string_value(text@)->0,
{
    serde_json::from_str::<String>(text)
}

/// `serde_json::from_str::<(i64, &str)>`: decodes a close frame's code and reason. The contract
/// claims that it succeeds exactly where `json_close_frame` is defined, and gives that value.
#[verifier::external_body]
pub fn json_decode_close_frame(text: &str) -> (r: Result<(i64, String), serde_json::Error>)
    ensures
        r is Ok <==> json_close_frame(text@) is Some,
        r matches Ok((code, reason)) ==> json_close_frame(text@) == Some((code, reason@)),
{
    serde_json::from_str::<(i64, &str)>(text).map(|(code, reason)| (code, reason.to_owned()))
}

/// `serde_json::from_str::<Vec<String>>`: decodes an array of string literals. The contract
/// claims that it succeeds exactly where `json_string_list` is defined, and gives those strings;
/// and that it reads the text that `json_encode_single_string` writes for a string back as that
/// one string, since the decoder undoes each escape that the encoder writes.
#[verifier::external_body]
pub fn json_decode_string_list(text: &str) -> (r: Result<Vec<String>, serde_json::Error>)
    ensures
        r is Ok <==> json_string_list(text@) is Some,
        r matches Ok(v) ==> v@.map_values(|s: String| s@) == json_string_list(text@)->0,
        r is Ok || forall|s: Seq<char>| #[trigger] json_single_string_array(s) != text@,
        r matches Ok(v) ==> forall|s: Seq<char>| #[trigger] json_single_string_array(s) == text@
            ==> v@.len() == 1 && v@[0]@ == s,
{
    serde_json::from_str::<Vec<String>>(text)
}

/// `serde_json::from_str::<Vec<Box<RawValue>>>`: splits a JSON array into the raw texts of its
/// elements. The contract claims that it succeeds exactly where `json_raw_elements` is defined,
/// and gives those texts.
#[verifier::external_body]
pub fn json_decode_raw_elements(text: &str) -> (r: Result<Vec<String>, serde_json::Error>)
    ensures
        r is Ok <==> json_raw_elements(text@) is Some,
        r matches Ok(v) ==> v@.map_values(|s: String| s@) == json_raw_elements(text@)->0,
{
    serde_json::from_str::<Vec<Box<serde_json::value::RawValue>>>(text).map(
        |v| v.into_iter().map(|e| e.get().to_owned()).collect(),
    )
}

} // verus!
