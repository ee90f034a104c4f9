//! Reading a translation response: the body must parse as a JSON array of
//! response elements of the exact wire shape, and the reply is the first
//! translation's text of the first element, or the empty string where the
//! array or its translations are empty.

use vstd::prelude::*;

use crate::json::Json;
use crate::json::obj_find;
use crate::json::obj_get;
use crate::outside::json_of;
use crate::outside::json_parse;
use crate::records::DetectedLanguage;
use crate::records::Translation;
use crate::records::TranslationItem;

verus! {

/// The value of member `key` when `j` is an object that has it.
pub open spec fn field_of(j: Json, key: Seq<char>) -> Option<Json> {
    match j {
        Json::Obj(pairs) => obj_find(pairs@, key),
        _ => None,
    }
}

/// The characters of string member `key`, empty when there is no such
/// string member.
pub open spec fn str_field(j: Json, key: Seq<char>) -> Seq<char> {
    match field_of(j, key) {
        Some(Json::Str(s)) => s@,
        _ => Seq::empty(),
    }
}

/// A translation record: an object with string members `text` and `to`.
pub open spec fn translation_shape(j: Json) -> bool {
    &&& field_of(j, "text"@) matches Some(Json::Str(_))
    &&& field_of(j, "to"@) matches Some(Json::Str(_))
}

/// A response element: an object whose `detectedLanguage` member is an
/// object with a string `language` and a numeric `score`, and whose
/// `translations` member is an array of translation records.
pub open spec fn item_shape(j: Json) -> bool {
    &&& match field_of(j, "detectedLanguage"@) {
        Some(dl) => {
            &&& field_of(dl, "language"@) matches Some(Json::Str(_))
            &&& field_of(dl, "score"@) matches Some(Json::Num(_))
        },
        None => false,
    }
    &&& match field_of(j, "translations"@) {
        Some(Json::Arr(ts)) => forall|k: int| 0 <= k < ts@.len() ==> translation_shape(ts@[k]),
        _ => false,
    }
}

/// A whole response: an array of response elements.
pub open spec fn response_shape(j: Json) -> bool {
    match j {
        Json::Arr(items) => forall|i: int| 0 <= i < items@.len() ==> item_shape(items@[i]),
        _ => false,
    }
}

/// The reply text of a well-shaped response: the first translation's text of
/// the first element, and empty where the array or its translations are
/// empty.
pub open spec fn first_text_of(j: Json) -> Seq<char>
    recommends
        response_shape(j),
{
    match j {
        Json::Arr(items) => if items@.len() == 0 {
            Seq::empty()
        } else {
            match field_of(items@[0], "translations"@) {
                Some(Json::Arr(ts)) => if ts@.len() == 0 {
                    Seq::empty()
                } else {
                    str_field(ts@[0], "text"@)
                },
                _ => Seq::empty(),
            }
        },
        _ => Seq::empty(),
    }
}

/// What reading a response body yields: the reply text when the body parses
/// as a well-shaped response, and nothing otherwise.
pub open spec fn reply_of(doc: Option<Json>) -> Option<Seq<char>> {
    match doc {
        Some(j) => if response_shape(j) {
            Some(first_text_of(j))
        } else {
            None
        },
        None => None,
    }
}

/// How a parsed translation record relates to its JSON source.
pub open spec fn translation_matches(j: Json, t: Translation) -> bool {
    &&& t.text@ == str_field(j, "text"@)
    &&& t.to@ == str_field(j, "to"@)
}

/// How a parsed response element relates to its JSON source.
pub open spec fn item_matches(j: Json, it: TranslationItem) -> bool {
    &&& match field_of(j, "detectedLanguage"@) {
        Some(dl) => it.detected_language.language@ == str_field(dl, "language"@),
        None => false,
    }
    &&& match field_of(j, "translations"@) {
        Some(Json::Arr(ts)) => {
            &&& it.translations@.len() == ts@.len()
            &&& forall|k: int|
                0 <= k < ts@.len() ==> translation_matches(ts@[k], #[trigger] it.translations@[k])
        },
        _ => false,
    }
}

/// How a parsed response relates to its JSON source.
pub open spec fn response_matches(j: Json, items: Seq<TranslationItem>) -> bool {
    match j {
        Json::Arr(elems) => {
            &&& items.len() == elems@.len()
            &&& forall|i: int| 0 <= i < elems@.len() ==> item_matches(elems@[i], #[trigger] items[i])
        },
        _ => false,
    }
}

/// Reads one translation record, exactly when `j` has that shape.
fn parse_translation(j: &Json) -> (r: Option<Translation>)
    ensures
        match r {
            Some(t) => translation_shape(*j) && translation_matches(*j, t),
            None => !translation_shape(*j),
        },
{
    match j {
        Json::Obj(pairs) => {
            let text = match obj_get(pairs, "text") {
                Some(Json::Str(s)) => s,
                _ => { return None; },
            };
            let to = match obj_get(pairs, "to") {
                Some(Json::Str(s)) => s,
                _ => { return None; },
            };
            Some(Translation { text: text.clone(), to: to.clone() })
        },
        _ => None,
    }
}

/// Reads the translation records of one response element, exactly when every
/// element of `ts` has the translation shape.
fn parse_translations(ts: &Vec<Json>) -> (r: Option<Vec<Translation>>)
    ensures
        match r {
            Some(v) => {
                &&& v@.len() == ts@.len()
                &&& forall|k: int| 0 <= k < ts@.len() ==> translation_shape(ts@[k])
                &&& forall|k: int|
                    0 <= k < ts@.len() ==> translation_matches(ts@[k], #[trigger] v@[k])
            },
            None => exists|k: int| 0 <= k < ts@.len() && !translation_shape(ts@[k]),
        },
{
    let mut translations: Vec<Translation> = Vec::new();
    let mut k: usize = 0;
    while k < ts.len()
        invariant
            k <= ts@.len(),
            translations@.len() == k as int,
            forall|m: int| 0 <= m < k ==> translation_shape(ts@[m]),
            forall|m: int|
                0 <= m < k ==> translation_matches(ts@[m], #[trigger] translations@[m]),
        decreases ts@.len() - k,
    {
        match parse_translation(&ts[k]) {
            Some(t) => translations.push(t),
            None => {
                proof {
                    assert(0 <= k < ts@.len() && !translation_shape(ts@[k as int]));
                }
                return None;
            },
        }
        k = k + 1;
    }
    Some(translations)
}

/// Reads one response element, exactly when `j` has that shape.
fn parse_item(j: &Json) -> (r: Option<TranslationItem>)
    ensures
        match r {
            Some(it) => item_shape(*j) && item_matches(*j, it),
            None => !item_shape(*j),
        },
{
    let pairs = match j {
        Json::Obj(pairs) => pairs,
        _ => { return None; },
    };
    let language = match obj_get(pairs, "detectedLanguage") {
        Some(Json::Obj(dl_pairs)) => {
            let language = match obj_get(dl_pairs, "language") {
                Some(Json::Str(s)) => s,
                _ => { return None; },
            };
            match obj_get(dl_pairs, "score") {
                Some(Json::Num(_)) => {},
                _ => { return None; },
            }
            language
        },
        _ => { return None; },
    };
    let ts = match obj_get(pairs, "translations") {
        Some(Json::Arr(ts)) => ts,
        _ => { return None; },
    };
    let translations = match parse_translations(ts) {
        Some(v) => v,
        None => { return None; },
    };
    Some(
        TranslationItem {
            detected_language: DetectedLanguage { language: language.clone() },
            translations,
        },
    )
}

/// Reads a whole parsed response, exactly when `doc` has the response shape;
/// this is the shape the wire records mirror.
pub fn parse_translation_items(doc: &Json) -> (r: Option<Vec<TranslationItem>>)
    ensures
        match r {
            Some(items) => response_shape(*doc) && response_matches(*doc, items@),
            None => !response_shape(*doc),
        },
{
    let elems = match doc {
        Json::Arr(elems) => elems,
        _ => { return None; },
    };
    parse_items(elems)
}

/// Reads the elements of a response array, exactly when every element has
/// the response-element shape.
fn parse_items(elems: &Vec<Json>) -> (r: Option<Vec<TranslationItem>>)
    ensures
        match r {
            Some(items) => {
                &&& items@.len() == elems@.len()
                &&& forall|i: int| 0 <= i < elems@.len() ==> item_shape(elems@[i])
                &&& forall|i: int|
                    0 <= i < elems@.len() ==> item_matches(elems@[i], #[trigger] items@[i])
            },
            None => exists|i: int| 0 <= i < elems@.len() && !item_shape(elems@[i]),
        },
{
    let mut items: Vec<TranslationItem> = Vec::new();
    let mut i: usize = 0;
    while i < elems.len()
        invariant
            i <= elems@.len(),
            items@.len() == i as int,
            forall|m: int| 0 <= m < i ==> item_shape(elems@[m]),
            forall|m: int| 0 <= m < i ==> item_matches(elems@[m], #[trigger] items@[m]),
        decreases elems@.len() - i,
    {
        match parse_item(&elems[i]) {
            Some(it) => items.push(it),
            None => {
                proof {
                    assert(0 <= i < elems@.len() && !item_shape(elems@[i as int]));
                }
                return None;
            },
        }
        i = i + 1;
    }
    Some(items)
}

/// The reply of a list of parsed response elements: the first translation's
/// text of the first element, or the empty string where either list is
/// empty.
pub open spec fn spec_first_translation_text(items: Seq<TranslationItem>) -> Seq<char> {
    if items.len() == 0 {
        Seq::empty()
    } else if items[0].translations@.len() == 0 {
        Seq::empty()
    } else {
        items[0].translations@[0].text@
    }
}

/// Picks the reply text out of a list of parsed response elements.
pub fn first_translation_text(items: &Vec<TranslationItem>) -> (r: String)
    ensures
        r@ == spec_first_translation_text(items@),
{
    if items.len() == 0 {
        return String::new();
    }
    let first = &items[0];
    if first.translations.len() == 0 {
        return String::new();
    }
    first.translations[0].text.clone()
}

/// A parsed response that matches a well-shaped document carries the
/// document's own reply text.
proof fn lemma_first_text(doc: Json, items: Seq<TranslationItem>)
    requires
        response_shape(doc),
        response_matches(doc, items),
    ensures
        spec_first_translation_text(items) == first_text_of(doc),
{
    match doc {
        Json::Arr(elems) => {
            if elems@.len() > 0 {
                assert(item_shape(elems@[0]));
                assert(item_matches(elems@[0], items[0]));
            }
        },
        _ => {},
    }
}

/// Reads a response body: the reply text exactly when the body parses as a
/// well-shaped response, and nothing otherwise. An empty response array
/// yields the empty string, not a failure.
pub fn translate_reply(body: &str) -> (r: Option<String>)
    ensures
        match r {
            Some(s) => reply_of(json_of(body@)) == Some(s@),
            None => reply_of(json_of(body@)) is None,
        },
{
    let doc = match json_parse(body) {
        Some(d) => d,
        None => { return None; },
    };
    let items = match parse_translation_items(&doc) {
        Some(it) => it,
        None => { return None; },
    };
    let text = first_translation_text(&items);
    proof {
        lemma_first_text(doc, items@);
    }
    Some(text)
}

/// An empty response array yields the empty string, never a failure.
pub proof fn lemma_empty_response_reply(doc: Json)
    requires
        doc matches Json::Arr(items) && items@.len() == 0,
    ensures
        reply_of(Some(doc)) == Some(Seq::<char>::empty()),
{
}

} // verus!
