//! Client-side logic for a small machine-translation HTTP API: bearer-token
//! expiry handling and translation request/response processing.

use vstd::prelude::*;

mod client;
mod encode;
mod json;
mod outside;
mod records;
mod response;
mod token;

pub use client::{
    API_AUTH, API_TRANSLATE, CONTENT_TYPE, Client, ClientView, DEFAULT_USER_AGENT,
    TranslateRequest, cached_credential, token_stale,
};
pub use encode::{body_of, build_body, build_url, escape_seq, escaped_char, hex_digit, url_of};
pub use json::{Json, obj_find, obj_find_from, obj_get, exp_claim_of_doc, doc_exp_claim};
pub use outside::{b64url_of, json_of, json_of_bytes};
pub use records::{DetectedLanguage, TextItem, Translation, TranslationItem};
pub use response::{
    field_of, first_text_of, first_translation_text, item_matches, item_shape,
    lemma_empty_response_reply, parse_translation_items, reply_of, response_matches,
    response_shape, spec_first_translation_text, str_field, translate_reply,
    translation_matches, translation_shape,
};
pub use token::{
    Token, TokenView, dot_from, expired_at, payload_segment, exp_claim, expiry_of,
    second_segment, lemma_claimed_expiry_governs, lemma_malformed_fallback,
};

verus! {

/// Seconds added to the current time when a credential carries no readable
/// expiry claim.
pub const FALLBACK_TOKEN_LIFETIME_SECS: u64 = 600;

/// The expiry substituted when a credential's own claim cannot be read:
/// a short lifetime from the moment the credential was wrapped.
pub open spec fn fallback_expiry(now_secs: u64) -> u64 {
    if now_secs + FALLBACK_TOKEN_LIFETIME_SECS <= u64::MAX {
        (now_secs + FALLBACK_TOKEN_LIFETIME_SECS) as u64
    } else {
        u64::MAX
    }
}

/// Computes the fallback expiry for a credential wrapped at `now_secs`.
pub fn fallback_expiry_at(now_secs: u64) -> (r: u64)
    ensures
        r == fallback_expiry(now_secs),
{
    if now_secs <= u64::MAX - FALLBACK_TOKEN_LIFETIME_SECS {
        now_secs + FALLBACK_TOKEN_LIFETIME_SECS
    } else {
        u64::MAX
    }
}

} // verus!
