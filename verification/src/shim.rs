//! Trusted bridge to the outside crates: structured JSON values, fresh
//! identifiers and wall-clock timestamps. Everything else in the library is
//! verified against the contracts stated here.

use vstd::prelude::*;

verus! {

/// `serde_json::Value` carries schema-less structured data (tool arguments,
/// event payloads) through the library; the library never looks inside it.
#[verifier::external_type_specification]
#[verifier::external_body]
pub struct ExValue(serde_json::Value);

/// The structured value that one line of text parses to: `serde_json`'s parse
/// when the line is valid JSON, and the empty JSON object otherwise. A
/// function of the line alone.
pub uninterp spec fn json_line_value(s: Seq<char>) -> serde_json::Value;

/// Relies on `serde_json::from_str`: parses one line as a JSON value,
/// defaulting to the empty JSON object when the line is not valid JSON.
#[verifier::external_body]
pub fn parse_json_line(s: &str) -> (r: serde_json::Value)
    ensures
        r == json_line_value(s@),
{
    serde_json::from_str(s).unwrap_or_else(|_| serde_json::Value::Object(serde_json::Map::new()))
}

/// Relies on `uuid::Uuid::new_v4` and its `Display` impl: a random version-4
/// UUID rendered in the hyphenated form, which is always 36 characters. The
/// value itself is random, so nothing more is promised.
#[verifier::external_body]
pub fn fresh_uuid_string() -> (r: String)
    ensures
        r@.len() == 36,
{
    uuid::Uuid::new_v4().to_string()
}

/// Relies on `std::time::SystemTime::now`: seconds since the Unix epoch,
/// or 0 when the clock reads earlier than the epoch. The clock is outside
/// the library, so nothing is promised of the value.
#[verifier::external_body]
pub fn unix_timestamp() -> (r: i64)
    ensures
        r >= 0,
{
    std::time::SystemTime::now()
        .duration_since(std::time::UNIX_EPOCH)
        .map(|d| i64::try_from(d.as_secs()).unwrap_or(i64::MAX))
        .unwrap_or(0)
}

} // verus!
