//! The outside types that the library carries, and the few outside calls
//! that it makes, each with the contract that the library relies on.
use vstd::prelude::*;

use std::collections::HashMap;


verus! {

/// `serde_json::Value`: free-form audit metadata, carried opaquely.
#[verifier::external_type_specification]
#[verifier::external_body]
pub struct ExJsonValue(serde_json::Value);

/// `reqwest::Client`: the HTTP connection pool that the transport uses.
#[verifier::external_type_specification]
#[verifier::external_body]
pub struct ExHttpClient(reqwest::Client);

/// The canonical reason phrase that the `http` crate (re-exported by
/// `reqwest` as `StatusCode`) gives a status code, if it knows one.
pub uninterp spec fn canonical_reason(code: u16) -> Option<Seq<char>>;

/// Calls `reqwest::StatusCode::from_u16(code)` and then
/// `StatusCode::canonical_reason`. The result is a fixed table lookup on the
/// code alone; the contract names it `canonical_reason(code)` and says
/// nothing about which codes have a phrase. `from_u16` accepts exactly the
/// codes 100 to 999, which `requires` demands.
#[verifier::external_body]
pub(crate) fn status_reason(code: u16) -> (r: Option<String>)
    requires
        100 <= code <= 999,
    ensures
        match r {
            Some(s) => canonical_reason(code) == Some(s@),
            None => canonical_reason(code) is None,
        },
{
    match reqwest::StatusCode::from_u16(code) {
        Ok(status) => status.canonical_reason().map(String::from),
        Err(_) => None,
    }
}

/// Calls `serde_json::to_string` on the metadata of a policy check; an
/// error is turned into its message. The text depends on the order in
/// which the map is walked, so nothing is stated of it. It always
/// succeeds: serde_json documents failure only for a `Serialize` impl that
/// fails or for a map with keys that are not strings, the keys here are
/// strings, `Value`'s `Serialize` only forwards each variant to the
/// serializer, and the output goes to a `Vec`, which accepts every write.
#[verifier::external_body]
pub(crate) fn encode_metadata(meta: &HashMap<String, serde_json::Value>) -> (r: core::result::Result<
    String,
    String,
>)
    ensures
        r is Ok,
{
    match serde_json::to_string(meta) {
        Ok(text) => Ok(text),
        Err(e) => Err(e.to_string()),
    }
}

/// `std::time::SystemTime`: a reading of the system clock, carried
/// opaquely.
#[verifier::external_type_specification]
#[verifier::external_body]
pub struct ExSystemTime(std::time::SystemTime);

/// Calls `std::time::SystemTime::now`. The reading depends on the clock, so
/// nothing is stated of it.
#[verifier::external_body]
pub(crate) fn system_now() -> (r: std::time::SystemTime) {
    std::time::SystemTime::now()
}

/// Calls `SystemTime::duration_since(UNIX_EPOCH)`: `Ok` with the time
/// elapsed since the Unix epoch, or, where the reading is before it, `Err`
/// with `SystemTimeError::duration`, the positive time from the reading to
/// the epoch. The reading is opaque to the library, so nothing is stated of
/// the value.
#[verifier::external_body]
pub(crate) fn since_unix_epoch(t: &std::time::SystemTime) -> (r: core::result::Result<
    std::time::Duration,
    std::time::Duration,
>) {
    match t.duration_since(std::time::UNIX_EPOCH) {
        Ok(d) => Ok(d),
        Err(e) => Err(e.duration()),
    }
}

/// Calls `Duration::as_secs`: the whole seconds of a duration. The
/// duration is opaque to the library, so nothing is stated of the value.
#[verifier::external_body]
pub(crate) fn whole_seconds(d: &std::time::Duration) -> (r: u64) {
    d.as_secs()
}

/// Calls `Duration::subsec_nanos`: the fractional part of a duration in
/// nanoseconds, which std documents to be always less than one billion.
#[verifier::external_body]
pub(crate) fn fraction_nanos(d: &std::time::Duration) -> (r: u32)
    ensures
        r < 1_000_000_000,
{
    d.subsec_nanos()
}

} // verus!
