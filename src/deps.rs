//! Calls into the crates this library builds on: identifier generation,
//! the wall clock and JSON string quoting.
use vstd::prelude::*;

verus! {

/// The JSON text of a string: the string in double quotes, escaped.
pub uninterp spec fn json_quoted(s: Seq<char>) -> Seq<char>;

/// No character of `s` needs escaping in a JSON string: none is a double
/// quote, a backslash or a control character below U+0020.
pub open spec fn json_plain(s: Seq<char>) -> bool {
    forall|i: int| 0 <= i < s.len() ==> s[i] != '"' && s[i] != '\\' && (s[i] as u32) >= 0x20
}

/// Relies on `serde_json::to_string` on a `str`: the quoted, escaped JSON
/// string literal, where only double quotes, backslashes and control
/// characters are escaped. Serialising a string cannot fail; the error arm
/// only converts the outside error type.
#[verifier::external_body]
pub(crate) fn quote_json(s: &str) -> (r: String)
    ensures
        r@ == json_quoted(s@),
        json_plain(s@) ==> r@ == seq!['"'] + s@ + seq!['"'],
{
    match serde_json::to_string(s) {
        Ok(t) => t,
        Err(_) => String::new(),
    }
}

/// Relies on `uuid::Uuid::new_v4` and `Uuid::as_u128`: a random version 4
/// identifier as its 128-bit value. Nothing is promised of the value.
#[verifier::external_body]
pub(crate) fn fresh_session_id() -> (r: u128) {
    uuid::Uuid::new_v4().as_u128()
}

/// Relies on `chrono::Utc::now` and `DateTime::to_rfc3339`: the current
/// time as an RFC 3339 string. Nothing is promised of the value.
#[verifier::external_body]
pub(crate) fn utc_now_rfc3339() -> (r: String) {
    chrono::Utc::now().to_rfc3339()
}

} // verus!
