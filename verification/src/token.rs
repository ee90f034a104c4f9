//! Bearer tokens: a credential string together with the expiry read out of
//! its payload.
//!
//! A credential is split on `.`; the middle segment is base64url-decoded and
//! parsed as JSON, and a numeric top-level `exp` member gives the expiry in
//! seconds since the Unix epoch. When any of those steps fails, a short
//! fallback lifetime from the moment of wrapping is substituted instead.

use vstd::prelude::*;

use crate::fallback_expiry;
use crate::fallback_expiry_at;
use crate::json::exp_claim_of_doc;
use crate::json::doc_exp_claim;
use crate::outside::b64url_of;
use crate::outside::b64url_decode;
use crate::outside::json_of_bytes;
use crate::outside::json_parse_bytes;
use crate::outside::now_unix_secs;
use crate::FALLBACK_TOKEN_LIFETIME_SECS;

verus! {

/// The index of the first `.` at or after `i`, or the length when there is
/// none.
pub open spec fn dot_from(s: Seq<char>, i: int) -> int
    decreases s.len() - i,
{
    if i < 0 || i >= s.len() {
        s.len() as int
    } else if s[i] == '.' {
        i
    } else {
        dot_from(s, i + 1)
    }
}

/// The payload segment of a credential: the characters between the first `.`
/// and the next `.` (or the end), and empty when there is no `.` at all.
pub open spec fn payload_segment(s: Seq<char>) -> Seq<char> {
    let i = dot_from(s, 0);
    if i == s.len() {
        Seq::empty()
    } else {
        s.subrange(i + 1, dot_from(s, i + 1))
    }
}

/// The expiry claim carried by a credential: its payload segment decoded from
/// base64url, parsed as JSON, and read as a numeric top-level `exp` member.
/// `None` when any of those steps fails.
pub open spec fn exp_claim(jwt: Seq<char>) -> Option<u64> {
    match b64url_of(payload_segment(jwt)) {
        Some(bytes) => match json_of_bytes(bytes) {
            Some(doc) => exp_claim_of_doc(doc),
            None => None,
        },
        None => None,
    }
}

/// The expiry of a token wrapped from `jwt` when the clock read `now_secs`:
/// the credential's own claim when it has one, and the fallback otherwise.
pub open spec fn expiry_of(jwt: Seq<char>, now_secs: u64) -> u64 {
    match exp_claim(jwt) {
        Some(t) => t,
        None => fallback_expiry(now_secs),
    }
}

/// A bearer credential together with the expiry read out of it.
pub struct Token {
    token: String,
    token_expires_at: u64,
}

pub ghost struct TokenView {
    pub credential: Seq<char>,
    pub expires_at: u64,
}

impl View for Token {
    type V = TokenView;

    closed spec fn view(&self) -> TokenView {
        TokenView { credential: self.token@, expires_at: self.token_expires_at }
    }
}

/// Whether a token is expired at the moment `now_secs`: its stored expiry
/// lies strictly before it.
pub open spec fn expired_at(t: TokenView, now_secs: u64) -> bool {
    t.expires_at < now_secs
}

/// Finds the first `.` at or after `from`, returning the length when there is
/// none.
fn find_dot(s: &str, from: usize) -> (r: usize)
    requires
        from <= s@.len(),
    ensures
        r == dot_from(s@, from as int),
        from <= r <= s@.len(),
{
    let len = s.unicode_len();
    let mut i: usize = from;
    while i < len
        invariant
            from <= i <= len,
            len == s@.len(),
            dot_from(s@, from as int) == dot_from(s@, i as int),
        decreases len - i,
    {
        if s.get_char(i) == '.' {
            return i;
        }
        i = i + 1;
    }
    i
}

/// The payload segment of a credential, as `payload_segment` describes it.
pub fn second_segment<'a>(jwt: &'a str) -> (r: &'a str)
    ensures
        r@ == payload_segment(jwt@),
{
    let len = jwt.unicode_len();
    let i = find_dot(jwt, 0);
    if i == len {
        let empty = "";
        proof {
            reveal_strlit("");
            assert(empty@ =~= payload_segment(jwt@));
        }
        empty
    } else {
        let j = find_dot(jwt, i + 1);
        jwt.substring_char(i + 1, j)
    }
}

impl Token {
    /// Wraps a credential, reading its expiry as of the moment `now_secs`:
    /// the payload's `exp` claim when it can be decoded, and the fallback
    /// lifetime from `now_secs` otherwise.
    pub fn from_jwt_at(jwt: &str, now_secs: u64) -> (t: Token)
        ensures
            t@.credential == jwt@,
            t@.expires_at == expiry_of(jwt@, now_secs),
    {
        let seg = second_segment(jwt);
        let expires = match b64url_decode(seg) {
            Some(bytes) => match json_parse_bytes(bytes.as_slice()) {
                Some(doc) => match doc_exp_claim(&doc) {
                    Some(t) => t,
                    None => fallback_expiry_at(now_secs),
                },
                None => fallback_expiry_at(now_secs),
            },
            None => fallback_expiry_at(now_secs),
        };
        Token { token: String::from_str(jwt), token_expires_at: expires }
    }

    /// Wraps a credential, reading its expiry as of the current wall-clock
    /// time.
    pub fn from_jwt(jwt: &str) -> (t: Token)
        ensures
            t@.credential == jwt@,
            exp_claim(jwt@) matches Some(e) ==> t@.expires_at == e,
            exists|now: u64| t@.expires_at == expiry_of(jwt@, now),
    {
        let now = now_unix_secs();
        let t = Token::from_jwt_at(jwt, now);
        proof {
            assert(t@.expires_at == expiry_of(jwt@, now));
        }
        t
    }

    /// Whether the token is expired at the moment `now_secs`: true exactly
    /// when the stored expiry lies strictly before it.
    pub fn is_expired_at(&self, now_secs: u64) -> (r: bool)
        ensures
            r == expired_at(self@, now_secs),
    {
        self.token_expires_at < now_secs
    }

    /// Whether the token is expired at the current wall-clock time: the
    /// expiry comparison of `is_expired_at`, at whatever moment the clock
    /// read.
    pub fn is_expired(&self) -> (r: bool)
        ensures
            exists|now: u64| r == expired_at(self@, now),
    {
        let now = now_unix_secs();
        let r = self.is_expired_at(now);
        proof {
            assert(r == expired_at(self@, now));
        }
        r
    }

    /// The credential string the token wraps.
    pub fn credential(&self) -> (r: &String)
        ensures
            r@ == self@.credential,
    {
        &self.token
    }
}

/// A token whose credential carries expiry claim `t` expires exactly when the
/// clock passes `t`, whenever the token was wrapped: before or at `t` it is
/// not expired, after `t` it is.
pub proof fn lemma_claimed_expiry_governs(jwt: Seq<char>, wrapped_at: u64, now: u64, t: u64)
    requires
        exp_claim(jwt) == Some(t),
    ensures
        expiry_of(jwt, wrapped_at) == t,
        now <= t ==> !(expiry_of(jwt, wrapped_at) < now),
        now > t ==> (expiry_of(jwt, wrapped_at) < now),
{
}

/// A credential with no readable expiry claim falls back to a short lifetime
/// from the moment it was wrapped.
pub proof fn lemma_malformed_fallback(jwt: Seq<char>, wrapped_at: u64)
    requires
        exp_claim(jwt) is None,
    ensures
        expiry_of(jwt, wrapped_at) == fallback_expiry(wrapped_at),
        wrapped_at + FALLBACK_TOKEN_LIFETIME_SECS <= u64::MAX ==> expiry_of(jwt, wrapped_at)
            == wrapped_at + FALLBACK_TOKEN_LIFETIME_SECS,
{
}

} // verus!
