//! The client's state: at most one cached token and a configurable
//! user-agent string. The decisions around the two HTTP calls — whether a
//! fresh token is needed, how a fetched credential is cached, and what a
//! translate request carries — stand here with contracts; the transport
//! itself is the caller's.

use vstd::prelude::*;

use crate::encode::body_of;
use crate::encode::build_body;
use crate::encode::build_url;
use crate::encode::url_of;
use crate::outside::now_unix_secs;
use crate::records::TextItem;
use crate::token::Token;
use crate::token::TokenView;
use crate::token::exp_claim;
use crate::token::expiry_of;

verus! {

/// The auth endpoint that hands out bearer credentials.
pub const API_AUTH: &'static str = "https://edge.microsoft.com/translate/auth";

/// The translate endpoint.
pub const API_TRANSLATE: &'static str = "https://api.cognitive.microsofttranslator.com/translate";

/// The user-agent string every request carries.
pub const DEFAULT_USER_AGENT: &'static str = "Mozilla/5.0 (Windows NT 10.0; Win64; x64) AppleWebKit/537.36 (KHTML, like Gecko) Chrome/133.0.0.0 Safari/537.36 Edg/133.0.0.0";

/// The content type of a translate request's body.
pub const CONTENT_TYPE: &'static str = "application/json; charset=UTF-8";

/// A translation client: at most one cached token, and a user-agent string.
pub struct Client {
    token: Option<Token>,
    user_agent: String,
}

pub ghost struct ClientView {
    pub token: Option<TokenView>,
    pub user_agent: Seq<char>,
}

impl View for Client {
    type V = ClientView;

    closed spec fn view(&self) -> ClientView {
        ClientView {
            token: match self.token {
                Some(t) => Some(t@),
                None => None,
            },
            user_agent: self.user_agent@,
        }
    }
}

/// Whether a client must fetch a fresh credential at the moment `now_secs`:
/// it holds none, or the one it holds is expired.
pub open spec fn token_stale(c: ClientView, now_secs: u64) -> bool {
    match c.token {
        Some(t) => t.expires_at < now_secs,
        None => true,
    }
}

/// The credential a client has cached, empty when it has none.
pub open spec fn cached_credential(c: ClientView) -> Seq<char> {
    match c.token {
        Some(t) => t.credential,
        None => Seq::empty(),
    }
}

/// Everything a translate call sends: where, what, and under which headers.
pub struct TranslateRequest {
    pub url: String,
    pub body: String,
    pub authorization: String,
    pub user_agent: String,
    pub content_type: String,
}

impl Client {
    /// A client with no cached token and the default user agent.
    pub fn new() -> (r: Client)
        ensures
            r@.token is None,
            r@.user_agent == DEFAULT_USER_AGENT@,
    {
        Client { token: None, user_agent: String::from_str(DEFAULT_USER_AGENT) }
    }

    /// Replaces the client's user-agent string.
    pub fn set_user_agent(&mut self, user_agent: String)
        ensures
            final(self)@.user_agent == user_agent@,
            final(self)@.token == old(self)@.token,
    {
        self.user_agent = user_agent;
    }

    /// Whether a fresh credential is needed at the moment `now_secs`.
    pub fn needs_token_at(&self, now_secs: u64) -> (r: bool)
        ensures
            r == token_stale(self@, now_secs),
    {
        match &self.token {
            Some(t) => t.is_expired_at(now_secs),
            None => true,
        }
    }

    /// Whether a fresh credential is needed at the current wall-clock time:
    /// the decision of `needs_token_at`, at whatever moment the clock read.
    /// A `false` answer means a token is cached.
    pub fn needs_token(&self) -> (r: bool)
        ensures
            exists|now: u64| r == token_stale(self@, now),
            !r ==> self@.token is Some,
    {
        let now = now_unix_secs();
        let r = self.needs_token_at(now);
        proof {
            assert(r == token_stale(self@, now));
        }
        r
    }

    /// Caches a freshly fetched credential, reading its expiry as of the
    /// moment `now_secs`.
    pub fn install_token_at(&mut self, credential: &str, now_secs: u64)
        ensures
            final(self)@.user_agent == old(self)@.user_agent,
            final(self)@.token == Some(
                (TokenView { credential: credential@, expires_at: expiry_of(credential@, now_secs) }),
            ),
    {
        self.token = Some(Token::from_jwt_at(credential, now_secs));
    }

    /// Caches a freshly fetched credential, reading its expiry as of the
    /// current wall-clock time.
    pub fn install_token(&mut self, credential: &str)
        ensures
            final(self)@.user_agent == old(self)@.user_agent,
            final(self)@.token matches Some(t) && t.credential == credential@,
            exp_claim(credential@) matches Some(e) ==> final(self)@.token matches Some(t)
                && t.expires_at == e,
            exists|now: u64|
                final(self)@.token == Some(
                    (TokenView {
                        credential: credential@,
                        expires_at: expiry_of(credential@, now),
                    }),
                ),
    {
        let now = now_unix_secs();
        self.install_token_at(credential, now);
        proof {
            assert(self@.token == Some(
                (TokenView { credential: credential@, expires_at: expiry_of(credential@, now) }),
            ));
        }
    }

    /// The client's user-agent string.
    pub fn user_agent(&self) -> (r: &String)
        ensures
            r@ == self@.user_agent,
    {
        &self.user_agent
    }

    /// The cached token, when there is one.
    pub fn cached_token(&self) -> (r: Option<&Token>)
        ensures
            match r {
                Some(t) => self@.token == Some(t@),
                None => self@.token is None,
            },
    {
        match &self.token {
            Some(t) => Some(t),
            None => None,
        }
    }

    /// Builds the translate request for one source text: the endpoint URL
    /// with the target and source languages as query parameters (an empty
    /// `from` asks the service to detect the source), the one-element JSON
    /// body, the cached credential as a bearer authorization, and the fixed
    /// user-agent and content-type headers.
    pub fn translate_request(&self, text: &str, from: &str, to: &str) -> (r: TranslateRequest)
        requires
            self@.token is Some,
        ensures
            r.url@ == url_of(API_TRANSLATE@, from@, to@),
            r.body@ == body_of(text@),
            r.authorization@ == "Bearer "@ + cached_credential(self@),
            r.user_agent@ == DEFAULT_USER_AGENT@,
            r.content_type@ == CONTENT_TYPE@,
    {
        let token = match &self.token {
            Some(t) => t,
            None => unreached(),
        };
        let mut authorization = String::from_str("Bearer ");
        authorization.append(token.credential().as_str());
        let item = TextItem { text: String::from_str(text) };
        TranslateRequest {
            url: build_url(API_TRANSLATE, from, to),
            body: build_body(&item),
            authorization,
            user_agent: String::from_str(DEFAULT_USER_AGENT),
            content_type: String::from_str(CONTENT_TYPE),
        }
    }
}

} // verus!
