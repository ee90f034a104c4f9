//! The crate's trusted boundary: every call into an outside crate, and into
//! the parts of std that vstd gives no specification, stands here behind a
//! contract that Verus believes without proof.

use vstd::prelude::*;

use crate::json::Json;
use base64::Engine;

verus! {

/// What base64url decoding (with padding) yields on the given characters:
/// the decoded bytes, or nothing when the input is not a valid padded
/// base64url encoding.
pub uninterp spec fn b64url_of(s: Seq<char>) -> Option<Seq<u8>>;

/// What parsing a complete JSON document from the given characters yields.
pub uninterp spec fn json_of(s: Seq<char>) -> Option<Json>;

/// What parsing a complete JSON document from the given bytes yields.
pub uninterp spec fn json_of_bytes(b: Seq<u8>) -> Option<Json>;

/// Relies on base64's `URL_SAFE` engine (`Engine::decode`): decoding is a
/// function of the input characters alone.
#[verifier::external_body]
pub(crate) fn b64url_decode(s: &str) -> (r: Option<Vec<u8>>)
    ensures
        match r {
            Some(v) => b64url_of(s@) == Some(v@),
            None => b64url_of(s@) is None,
        },
{
    base64::engine::general_purpose::URL_SAFE.decode(s).ok()
}

#[verifier::external_type_specification]
#[verifier::external_body]
pub struct ExJsonValue(serde_json::Value);

/// Relies on `serde_json::Value`'s variants and `serde_json::Number::as_u64`:
/// each parsed value is mirrored one variant at a time, and a number keeps
/// its value only when `as_u64` reports it as an unsigned integer.
#[verifier::external_body]
fn json_convert(v: &serde_json::Value) -> Json {
    match v {
        serde_json::Value::Null => Json::Null,
        serde_json::Value::Bool(b) => Json::Bool(*b),
        serde_json::Value::Number(n) => Json::Num(n.as_u64()),
        serde_json::Value::String(s) => Json::Str(s.clone()),
        serde_json::Value::Array(a) => Json::Arr(a.iter().map(json_convert).collect()),
        serde_json::Value::Object(m) => Json::Obj(
            m.iter().map(|(k, x)| (k.clone(), json_convert(x))).collect(),
        ),
    }
}

/// Relies on `serde_json::from_str`: parsing a complete JSON document is a
/// function of the input characters alone.
#[verifier::external_body]
pub(crate) fn json_parse(s: &str) -> (r: Option<Json>)
    ensures
        r == json_of(s@),
{
    match serde_json::from_str::<serde_json::Value>(s) {
        Ok(v) => Some(json_convert(&v)),
        Err(_) => None,
    }
}

/// Relies on `serde_json::from_slice`: parsing a complete JSON document is a
/// function of the input bytes alone.
#[verifier::external_body]
pub(crate) fn json_parse_bytes(b: &[u8]) -> (r: Option<Json>)
    ensures
        r == json_of_bytes(b@),
{
    match serde_json::from_slice::<serde_json::Value>(b) {
        Ok(v) => Some(json_convert(&v)),
        Err(_) => None,
    }
}

/// Relies on `std::time::SystemTime::now`, `SystemTime::duration_since` and
/// `Duration::as_secs`: the wall-clock time, in whole seconds since the Unix
/// epoch. A clock set before the epoch reads as zero, so the call never
/// fails.
#[verifier::external_body]
pub(crate) fn now_unix_secs() -> u64 {
    match std::time::SystemTime::now().duration_since(std::time::SystemTime::UNIX_EPOCH) {
        Ok(d) => d.as_secs(),
        Err(_) => 0,
    }
}

/// Relies on `String::push`: appends one character.
#[verifier::external_body]
pub(crate) fn push_char(s: &mut String, c: char)
    ensures
        final(s)@ == old(s)@.push(c),
{
    s.push(c)
}

} // verus!
