//! Trusted declarations: the parts of std and of outside crates that the
//! library calls but Verus does not read.
use vstd::prelude::*;
use std::hash::BuildHasher;

verus! {

/// `serde_json::Value`, carried through the library as opaque metadata.
#[verifier::external_type_specification]
#[verifier::external_body]
pub struct ExJsonValue(serde_json::Value);

/// `Clone` for `serde_json::Value` (a derived deep copy): the copy equals the original.
pub assume_specification[ <serde_json::Value as Clone>::clone ](v: &serde_json::Value) -> (r:
    serde_json::Value)
    ensures
        r == *v,
;

/// Calls `serde_json::Value::Object(serde_json::Map::new())`: a JSON object with
/// no members. Nothing is claimed of the value, which the library only stores.
#[verifier::external_body]
pub(crate) fn empty_json_object() -> serde_json::Value {
    serde_json::Value::Object(serde_json::Map::new())
}

/// Reads the system clock (`std::time::SystemTime::now`) as whole seconds since
/// the Unix epoch; `None` when the clock reads before the epoch. The reading depends
/// on the time, so nothing is claimed of it.
#[verifier::external_body]
pub(crate) fn system_clock_secs() -> Option<u64> {
    std::time::SystemTime::now().duration_since(std::time::UNIX_EPOCH).ok().map(|d| d.as_secs())
}

/// Reads the system clock (`std::time::SystemTime::now`) as nanoseconds since the
/// Unix epoch; `None` before the epoch. Nothing is claimed of the reading.
#[verifier::external_body]
pub(crate) fn system_clock_nanos() -> Option<u128> {
    std::time::SystemTime::now().duration_since(std::time::UNIX_EPOCH).ok().map(|d| d.as_nanos())
}

/// Hashes a constant with a fresh `std::collections::hash_map::RandomState`,
/// whose keys differ from one call to the next. Nothing is claimed of the result.
#[verifier::external_body]
pub(crate) fn fresh_entropy() -> u64 {
    std::collections::hash_map::RandomState::new().hash_one(0u8)
}

/// `String::push`: appends one character.
#[verifier::external_body]
pub(crate) fn push_char(s: &mut String, c: char)
    ensures
        final(s)@ == old(s)@.push(c),
{
    s.push(c)
}

/// What `str::to_lowercase` returns for a string (Unicode lowercase mapping).
pub uninterp spec fn spec_to_lowercase(s: Seq<char>) -> Seq<char>;

/// What `str::to_uppercase` returns for a string (Unicode uppercase mapping).
pub uninterp spec fn spec_to_uppercase(s: Seq<char>) -> Seq<char>;

/// Whether every character of a text is ASCII.
pub open spec fn is_ascii_text(s: Seq<char>) -> bool {
    forall|i: int| 0 <= i < s.len() ==> (#[trigger] s[i] as u32) < 128
}

/// The text with the ASCII letters `A`-`Z` made lower case, other characters as they are.
pub open spec fn ascii_lower(s: Seq<char>) -> Seq<char> {
    s.map_values(|c: char| if 'A' <= c && c <= 'Z' { ((c as u32) + 32) as char } else { c })
}

/// The text with the ASCII letters `a`-`z` made upper case, other characters as they are.
pub open spec fn ascii_upper(s: Seq<char>) -> Seq<char> {
    s.map_values(|c: char| if 'a' <= c && c <= 'z' { ((c as u32) - 32) as char } else { c })
}

/// `str::to_lowercase`: its result is named `spec_to_lowercase` of the input.
/// On ASCII text the Unicode lowercase mapping that it applies maps `A`-`Z`
/// to `a`-`z` and leaves every other ASCII character as it is.
#[verifier::external_body]
pub(crate) fn to_lowercase(s: &str) -> (r: String)
    ensures
        r@ == spec_to_lowercase(s@),
        is_ascii_text(s@) ==> r@ == ascii_lower(s@),
{
    s.to_lowercase()
}

/// `str::to_uppercase`: its result is named `spec_to_uppercase` of the input.
/// On ASCII text the Unicode uppercase mapping that it applies maps `a`-`z`
/// to `A`-`Z` and leaves every other ASCII character as it is.
#[verifier::external_body]
pub(crate) fn to_uppercase(s: &str) -> (r: String)
    ensures
        r@ == spec_to_uppercase(s@),
        is_ascii_text(s@) ==> r@ == ascii_upper(s@),
{
    s.to_uppercase()
}

/// The message of the error `String::from_utf8` reports for invalid bytes
/// (its `Display` text, such as "invalid utf-8 sequence of 1 bytes from index 0").
pub uninterp spec fn utf8_error_message(bytes: Seq<u8>) -> Seq<char>;

/// `String::from_utf8`: succeeds exactly on valid UTF-8, with the decoded
/// characters; on failure it gives the error's message, named `utf8_error_message`.
#[verifier::external_body]
pub(crate) fn string_from_utf8(bytes: Vec<u8>) -> (r: Result<String, String>)
    ensures
        r is Ok <==> vstd::utf8::valid_utf8(bytes@),
        r matches Ok(s) ==> s@ == vstd::utf8::decode_utf8(bytes@),
        r matches Err(m) ==> m@ == utf8_error_message(bytes@),
{
    String::from_utf8(bytes).map_err(|e| e.to_string())
}

/// `serde_json::Error`, carried from a failed JSON conversion into an error of the library.
#[verifier::external_type_specification]
#[verifier::external_body]
pub struct ExJsonError(serde_json::Error);

/// The message of a `serde_json::Error` (its `Display` text). Nothing is claimed
/// of it: the error value is opaque here.
#[verifier::external_body]
pub(crate) fn json_error_text(e: &serde_json::Error) -> String {
    e.to_string()
}

/// `std::io::Error`, carried from a failed stream write into an error of the library.
#[verifier::external_type_specification]
#[verifier::external_body]
pub struct ExIoError(std::io::Error);

/// The message of a `std::io::Error` (its `Display` text). Nothing is claimed
/// of it: it depends on the operating system's messages.
#[verifier::external_body]
pub(crate) fn io_error_text(e: &std::io::Error) -> String {
    e.to_string()
}

/// What chrono makes of a timestamp text: when `chrono::DateTime::parse_from_rfc3339`
/// accepts it, the same instant in UTC formatted as "%Y-%m-%d %H:%M:%S UTC"
/// (such as "2024-01-15 10:30:00 UTC"); `None` when it does not parse.
pub uninterp spec fn rfc3339_utc_text(ts: Seq<char>) -> Option<Seq<char>>;

/// Parses a timestamp with `chrono::DateTime::parse_from_rfc3339` and formats the
/// instant in UTC as "%Y-%m-%d %H:%M:%S UTC". The result is named
/// `rfc3339_utc_text` of the input; what RFC 3339 accepts and the calendar
/// arithmetic are chrono's and are not stated here.
#[verifier::external_body]
pub(crate) fn parse_rfc3339_utc_text(ts: &str) -> (r: Option<String>)
    ensures
        r is Some <==> rfc3339_utc_text(ts@) is Some,
        r matches Some(t) ==> rfc3339_utc_text(ts@) == Some(t@),
{
    match chrono::DateTime::parse_from_rfc3339(ts) {
        Ok(dt) => Some(dt.with_timezone(&chrono::Utc).format("%Y-%m-%d %H:%M:%S UTC").to_string()),
        Err(_) => None,
    }
}

} // verus!
