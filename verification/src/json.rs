//! A decoded JSON document, held as plain values so that the logic reading it
//! can be verified. Documents are produced by the trusted parsers in
//! `outside` and only read here.

use vstd::prelude::*;

verus! {

/// A JSON value.
///
/// A number carries its value only when the source text is an unsigned
/// integer that fits in `u64`; every other number (negative, fractional,
/// in exponent form, or too large) is kept as `Num(None)`, which matches
/// what `serde_json::Number::as_u64` reports.
///
/// An object is a sequence of key/value pairs; the parser hands keys out
/// deduplicated, but nothing here depends on that: lookups take the first
/// pair whose key matches.
#[derive(Debug)]
pub enum Json {
    Null,
    Bool(bool),
    Num(Option<u64>),
    Str(String),
    Arr(Vec<Json>),
    Obj(Vec<(String, Json)>),
}

/// The value of the first pair at or after index `i` whose key is `key`.
pub open spec fn obj_find_from(pairs: Seq<(String, Json)>, key: Seq<char>, i: int) -> Option<Json>
    decreases pairs.len() - i,
{
    if i < 0 || i >= pairs.len() {
        None
    } else if pairs[i].0@ == key {
        Some(pairs[i].1)
    } else {
        obj_find_from(pairs, key, i + 1)
    }
}

/// The value of the first pair whose key is `key`, if any.
pub open spec fn obj_find(pairs: Seq<(String, Json)>, key: Seq<char>) -> Option<Json> {
    obj_find_from(pairs, key, 0)
}

/// Looks a key up in an object's pairs.
pub fn obj_get<'a>(pairs: &'a Vec<(String, Json)>, key: &str) -> (r: Option<&'a Json>)
    ensures
        match r {
            Some(j) => obj_find(pairs@, key@) == Some(*j),
            None => obj_find(pairs@, key@) is None,
        },
{
    let needle = String::from_str(key);
    let mut i: usize = 0;
    while i < pairs.len()
        invariant
            i <= pairs@.len(),
            needle@ == key@,
            obj_find(pairs@, key@) == obj_find_from(pairs@, key@, i as int),
        decreases pairs@.len() - i,
    {
        if pairs[i].0 == needle {
            return Some(&pairs[i].1);
        }
        i = i + 1;
    }
    None
}

/// The expiry claim of a decoded credential payload: the value of a top-level
/// `exp` member when the document is an object and that member is an unsigned
/// integer.
pub open spec fn exp_claim_of_doc(doc: Json) -> Option<u64> {
    match doc {
        Json::Obj(pairs) => match obj_find(pairs@, "exp"@) {
            Some(Json::Num(Some(v))) => Some(v),
            _ => None,
        },
        _ => None,
    }
}

/// Reads the expiry claim out of a decoded credential payload.
pub fn doc_exp_claim(doc: &Json) -> (r: Option<u64>)
    ensures
        r == exp_claim_of_doc(*doc),
{
    match doc {
        Json::Obj(pairs) => match obj_get(pairs, "exp") {
            Some(Json::Num(Some(v))) => Some(*v),
            _ => None,
        },
        _ => None,
    }
}

} // verus!
