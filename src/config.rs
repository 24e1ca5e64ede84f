//! Application settings, and the choice of delivery backend they lead to.
//! Loading and storing settings, and reading secrets, is left to the
//! caller, which hands the secrets it found to `select_access_point`.

use vstd::prelude::*;
use crate::div_service::DivServiceClient;
use crate::mock::MockClient;
use crate::unifiedpost::{UnifiedpostAuth, UnifiedpostClient};
use crate::text::text_eq;

verus! {

broadcast use vstd::string::group_string_axioms;

/// The application's settings.
#[derive(Clone, Debug)]
pub struct AppConfig {
    pub provider: ProviderConfig,
    pub certificate: CertificateConfig,
    pub sender: SenderConfig,
}

/// Which backend to use, and where it is.
#[derive(Clone, Debug)]
pub struct ProviderConfig {
    /// `mock`, `div` or `unifiedpost`.
    pub kind: String,
    pub base_url: Option<String>,
    pub client_id: Option<String>,
    pub token_url: Option<String>,
}

/// The client certificate.
#[derive(Clone, Debug)]
pub struct CertificateConfig {
    pub thumbprint: Option<String>,
}

/// The sender's identity.
#[derive(Clone, Debug)]
pub struct SenderConfig {
    pub from_title: Option<String>,
    pub from_eadrese: Option<String>,
}

/// The backend used where none is configured.
pub fn default_provider_kind() -> (r: String)
    ensures
        r@ == "mock"@,
{
    String::from_str("mock")
}

impl Default for AppConfig {
    fn default() -> (r: Self)
        ensures
            r.provider.kind@ == "mock"@,
            r.provider.base_url is None,
            r.provider.client_id is None,
            r.provider.token_url is None,
            r.certificate.thumbprint is None,
            r.sender.from_title is None,
            r.sender.from_eadrese is None,
    {
        AppConfig {
            provider: ProviderConfig {
                kind: default_provider_kind(),
                base_url: None,
                client_id: None,
                token_url: None,
            },
            certificate: CertificateConfig { thumbprint: None },
            sender: SenderConfig { from_title: None, from_eadrese: None },
        }
    }
}

/// A delivery backend, chosen once from the settings.
#[derive(Clone, Debug)]
pub enum AccessPointClient {
    Mock(MockClient),
    Div(DivServiceClient),
    Unifiedpost(UnifiedpostClient),
}

/// Whether an optional setting is present and not empty.
pub open spec fn is_set(o: Option<String>) -> bool {
    o matches Some(s) && s@.len() > 0
}

fn set_value(o: &Option<String>) -> (r: Option<String>)
    ensures
        is_set(*o) ==> r == *o,
        !is_set(*o) ==> r is None,
{
    match o {
        Some(s) => if s.as_str().is_empty() {
            None
        } else {
            Some(s.clone())
        },
        None => None,
    }
}

/// The token URL of the REST backend: the configured one, else
/// `/oauth/token` under the base URL.
pub open spec fn token_url_for(configured: Option<String>, base_url: Seq<char>) -> Seq<char> {
    match configured {
        Some(u) => u@,
        None => base_url + "/oauth/token"@,
    }
}

/// Whether `c` is the REST backend that the settings and the secrets found
/// call for: API key first, else OAuth2 where a client id and a client
/// secret are there, else one without credentials.
pub open spec fn rest_backend_fits(
    c: UnifiedpostClient,
    cfg: AppConfig,
    api_key: Option<String>,
    client_secret: Option<String>,
) -> bool {
    &&& c.base_url == cfg.provider.base_url->0
    &&& c.access_token is None
    &&& match api_key {
        Some(k) => c.auth == UnifiedpostAuth::ApiKey { key: k },
        None => if is_set(cfg.provider.client_id) && client_secret is Some {
            c.auth matches UnifiedpostAuth::OAuth2 { client_id, client_secret: s, token_url }
                && client_id == cfg.provider.client_id->0
                && s == client_secret->0
                && token_url@ == token_url_for(cfg.provider.token_url, cfg.provider.base_url->0@)
        } else {
            c.auth is Unavailable
        },
    }
}

/// The backend the settings call for. The gateway needs a base URL, a
/// certificate thumbprint and a sender address, the REST backend a base
/// URL; where one is missing, or the kind is unknown, the simulator is used.
pub fn select_access_point(cfg: &AppConfig, api_key: Option<String>, client_secret: Option<String>) -> (r: AccessPointClient)
    ensures
        cfg.provider.kind@ == "div"@ && is_set(cfg.provider.base_url) && is_set(cfg.certificate.thumbprint)
            && is_set(cfg.sender.from_eadrese) ==> (r matches AccessPointClient::Div(c)
            && c.base_url == cfg.provider.base_url->0
            && c.cert_thumbprint == cfg.certificate.thumbprint->0
            && c.sender_eaddress == cfg.sender.from_eadrese->0),
        cfg.provider.kind@ == "div"@ && !(is_set(cfg.provider.base_url) && is_set(cfg.certificate.thumbprint)
            && is_set(cfg.sender.from_eadrese)) ==> r is Mock,
        cfg.provider.kind@ == "unifiedpost"@ && is_set(cfg.provider.base_url) ==> (r matches AccessPointClient::Unifiedpost(c)
            && rest_backend_fits(c, *cfg, api_key, client_secret)),
        cfg.provider.kind@ == "unifiedpost"@ && !is_set(cfg.provider.base_url) ==> r is Mock,
        cfg.provider.kind@ != "div"@ && cfg.provider.kind@ != "unifiedpost"@ ==> r is Mock,
{
    let kind = cfg.provider.kind.as_str();
    proof {
        reveal_strlit("div");
        reveal_strlit("unifiedpost");
        assert("div"@.len() != "unifiedpost"@.len());
    }
    if text_eq(kind, "div") {
        let base = set_value(&cfg.provider.base_url);
        let thumb = set_value(&cfg.certificate.thumbprint);
        let sender = set_value(&cfg.sender.from_eadrese);
        match (base, thumb, sender) {
            (Some(b), Some(t), Some(s)) => AccessPointClient::Div(DivServiceClient {
                base_url: b,
                cert_thumbprint: t,
                sender_eaddress: s,
            }),
            _ => AccessPointClient::Mock(MockClient),
        }
    } else if text_eq(kind, "unifiedpost") {
        let base = match set_value(&cfg.provider.base_url) {
            Some(b) => b,
            None => {
                return AccessPointClient::Mock(MockClient);
            },
        };
        let auth = match api_key {
            Some(k) => UnifiedpostAuth::ApiKey { key: k },
            None => match (set_value(&cfg.provider.client_id), client_secret) {
                (Some(id), Some(secret)) => {
                    let token_url = match &cfg.provider.token_url {
                        Some(u) => u.clone(),
                        None => {
                            let mut u = base.clone();
                            u.append("/oauth/token");
                            u
                        },
                    };
                    UnifiedpostAuth::OAuth2 { client_id: id, client_secret: secret, token_url }
                },
                _ => UnifiedpostAuth::Unavailable,
            },
        };
        AccessPointClient::Unifiedpost(UnifiedpostClient::new(base, auth))
    } else {
        AccessPointClient::Mock(MockClient)
    }
}

} // verus!
