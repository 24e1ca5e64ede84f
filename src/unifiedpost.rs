//! The commercial REST backend: authentication by a static API key or by
//! an OAuth2 client-credentials token that is fetched once and cached, JSON
//! submission, and status queries keyed by transmission id.
//!
//! Sending the requests, and encoding and decoding their JSON, is left to
//! the caller, which hands the backend's answers back as plain values.

use vstd::prelude::*;
use crate::boundary::lower_of;
use crate::delivery::{check_response, is_success_status, rest_state, rest_state_spec, DeliveryStatus, ProviderError};
use crate::text::opt_view;

verus! {

/// How the REST backend authenticates.
#[derive(Clone, Debug)]
pub enum UnifiedpostAuth {
    /// A static API key, sent as a bearer token.
    ApiKey { key: String },
    /// OAuth2 client credentials, exchanged at `token_url` for a bearer token.
    OAuth2 { client_id: String, client_secret: String, token_url: String },
    /// No credentials could be retrieved.
    Unavailable,
}

/// What is needed before an authenticated request can be sent.
#[derive(Clone, Debug)]
pub enum AuthStep {
    /// The `Authorization` header value to send.
    Ready { header: String },
    /// A token must first be requested with these client credentials.
    FetchToken { token_url: String, client_id: String, client_secret: String },
}

/// The text of the error for a backend without credentials.
pub open spec fn missing_credentials_detail() -> Seq<char> {
    "no API key or OAuth2 client secret is available"@
}

/// The REST backend's configuration and its cached access token.
#[derive(Clone, Debug)]
pub struct UnifiedpostClient {
    pub base_url: String,
    pub auth: UnifiedpostAuth,
    /// The OAuth2 access token, once fetched; a cache only.
    pub access_token: Option<String>,
}

/// The bearer header value for a token.
pub open spec fn bearer(token: Seq<char>) -> Seq<char> {
    "Bearer "@ + token
}

fn bearer_header(token: &str) -> (r: String)
    ensures
        r@ == bearer(token@),
{
    let mut h = String::from_str("Bearer ");
    h.append(token);
    h
}

/// The state a status answer's free-text state maps to, with the answer's
/// transmission id and message.
pub open spec fn rest_status_fits(s: DeliveryStatus, transmission_id: Seq<char>, state: Seq<char>, message: Option<Seq<char>>) -> bool {
    &&& s.transmission_id@ == transmission_id
    &&& s.state == rest_state_spec(lower_of(state))
    &&& opt_view(s.message) == message
}

impl UnifiedpostClient {
    /// A backend with no cached token.
    pub fn new(base_url: String, auth: UnifiedpostAuth) -> (r: Self)
        ensures
            r.base_url == base_url,
            r.auth == auth,
            r.cached_token() is None,
    {
        UnifiedpostClient { base_url, auth, access_token: None }
    }

    /// The cached OAuth2 access token.
    pub open spec fn cached_token(&self) -> Option<Seq<char>> {
        opt_view(self.access_token)
    }

    /// What is needed to authenticate a request: the header for an API key
    /// or a cached token, a token request for OAuth2 without one, and an
    /// error where no credentials are available.
    pub fn get_auth_header(&self) -> (r: Result<AuthStep, ProviderError>)
        ensures
            match self.auth {
                UnifiedpostAuth::ApiKey { key } => r matches Ok(AuthStep::Ready { header }) && header@ == bearer(key@),
                UnifiedpostAuth::OAuth2 { client_id, client_secret, token_url } => match self.cached_token() {
                    Some(t) => r matches Ok(AuthStep::Ready { header }) && header@ == bearer(t),
                    None => r matches Ok(AuthStep::FetchToken { token_url: u, client_id: i, client_secret: s })
                        && u == token_url && i == client_id && s == client_secret,
                },
                UnifiedpostAuth::Unavailable => r matches Err(ProviderError::Credentials { detail })
                    && detail@ == missing_credentials_detail(),
            },
    {
        match &self.auth {
            UnifiedpostAuth::ApiKey { key } => Ok(AuthStep::Ready { header: bearer_header(key.as_str()) }),
            UnifiedpostAuth::OAuth2 { client_id, client_secret, token_url } => match &self.access_token {
                Some(t) => Ok(AuthStep::Ready { header: bearer_header(t.as_str()) }),
                None => Ok(AuthStep::FetchToken {
                    token_url: token_url.clone(),
                    client_id: client_id.clone(),
                    client_secret: client_secret.clone(),
                }),
            },
            UnifiedpostAuth::Unavailable => Err(ProviderError::Credentials {
                detail: String::from_str("no API key or OAuth2 client secret is available"),
            }),
        }
    }

    /// Takes the answer to a token request: on success with a token, the
    /// token is cached and its header returned; otherwise nothing is cached.
    pub fn accept_token(&mut self, http_status: u16, body: String, access_token: Option<String>) -> (r: Result<String, ProviderError>)
        ensures
            final(self).base_url == old(self).base_url,
            final(self).auth == old(self).auth,
            match r {
                Ok(h) => is_success_status(http_status) && access_token is Some
                    && final(self).cached_token() == opt_view(access_token)
                    && h@ == bearer(access_token->0@),
                Err(e) => final(self).cached_token() == old(self).cached_token()
                    && (!is_success_status(http_status) ==> e matches ProviderError::Protocol { .. })
                    && (is_success_status(http_status) ==> access_token is None && e matches ProviderError::Parse { .. }),
            },
    {
        match check_response("OAuth2 token request", http_status, body) {
            Err(e) => Err(e),
            Ok(_) => match access_token {
                Some(t) => {
                    let h = bearer_header(t.as_str());
                    self.access_token = Some(t);
                    Ok(h)
                },
                None => Err(ProviderError::Parse {
                    context: String::from_str("Failed to parse token response"),
                    detail: String::from_str("no access token in the answer"),
                }),
            },
        }
    }

    /// The URL documents are submitted to.
    pub fn submit_url(&self) -> (r: String)
        ensures
            r@ == self.base_url@ + "/api/v1/peppol/send"@,
    {
        let mut u = self.base_url.clone();
        u.append("/api/v1/peppol/send");
        u
    }

    /// The URL the status of `transmission_id` is read from.
    pub fn status_url(&self, transmission_id: &str) -> (r: String)
        ensures
            r@ == self.base_url@ + "/api/v1/peppol/status/"@ + transmission_id@,
    {
        let mut u = self.base_url.clone();
        u.append("/api/v1/peppol/status/");
        u.append(transmission_id);
        u
    }

    /// The outcome of a submission, from the backend's answer and the
    /// transmission id read from its body, if any.
    pub fn submit_outcome(&self, http_status: u16, body: String, transmission_id: Option<String>) -> (r: Result<String, ProviderError>)
        ensures
            !is_success_status(http_status) ==> (r matches Err(ProviderError::Protocol { status, body: b, .. })
                && status == http_status && b == body),
            is_success_status(http_status) ==> match transmission_id {
                Some(t) => r == Ok::<String, ProviderError>(t),
                None => r matches Err(ProviderError::Parse { .. }),
            },
    {
        match check_response("Unifiedpost submit", http_status, body) {
            Err(e) => Err(e),
            Ok(_) => match transmission_id {
                Some(t) => Ok(t),
                None => Err(ProviderError::Parse {
                    context: String::from_str("Failed to parse submit response"),
                    detail: String::from_str("no transmission id in the answer"),
                }),
            },
        }
    }

    /// The outcome of a status query, from the backend's answer and the
    /// fields read from its body (transmission id, state, message), if any.
    pub fn status_outcome(&self, http_status: u16, body: String, fields: Option<(String, String, Option<String>)>) -> (r: Result<DeliveryStatus, ProviderError>)
        ensures
            !is_success_status(http_status) ==> (r matches Err(ProviderError::Protocol { status, body: b, .. })
                && status == http_status && b == body),
            is_success_status(http_status) ==> match fields {
                Some((t, st, m)) => r matches Ok(s) && rest_status_fits(s, t@, st@, opt_view(m)),
                None => r matches Err(ProviderError::Parse { .. }),
            },
    {
        match check_response("Unifiedpost status query", http_status, body) {
            Err(e) => Err(e),
            Ok(_) => match fields {
                Some((t, st, m)) => {
                    let state = rest_state(st.as_str());
                    Ok(DeliveryStatus { transmission_id: t, state, message: m })
                },
                None => Err(ProviderError::Parse {
                    context: String::from_str("Failed to parse status response"),
                    detail: String::from_str("the answer does not hold a status"),
                }),
            },
        }
    }
}

/// Querying the same transmission twice against an unchanged backend
/// yields the same delivery state both times.
pub proof fn lemma_rest_status_idempotent(
    first: DeliveryStatus,
    second: DeliveryStatus,
    transmission_id: Seq<char>,
    state: Seq<char>,
    message: Option<Seq<char>>,
)
    requires
        rest_status_fits(first, transmission_id, state, message),
        rest_status_fits(second, transmission_id, state, message),
    ensures
        first.state == second.state,
{
}

} // verus!
