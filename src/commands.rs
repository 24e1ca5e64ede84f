//! What the desktop front end exchanges with the library, and the
//! decisions behind its commands: validation rows, job status rows,
//! settings, and the configuration check of the chosen backend.

use vstd::prelude::*;
use crate::boundary::{format_rfc3339, rfc3339_of};
use crate::config::{is_set, AppConfig};
use crate::queue::{state_name, JobRecord};
use crate::text::{clone_opt, opt_view, text_eq};
use crate::validation::outcome_messages;

verus! {

broadcast use vstd::string::group_string_axioms;

/// An invoice file found in a folder.
#[derive(Clone, Debug)]
pub struct InvoiceFile {
    pub path: String,
    pub size_bytes: u64,
}

/// The validation outcome of one file.
#[derive(Clone, Debug)]
pub struct ValidationResult {
    pub path: String,
    pub valid: bool,
    pub errors: Vec<String>,
}

/// A request to send files.
#[derive(Clone, Debug)]
pub struct SendRequest {
    pub paths: Vec<String>,
    pub sender: String,
    pub receiver: String,
    pub profile: String,
}

/// The ids of the jobs a send request created.
#[derive(Clone, Debug)]
pub struct EnqueueResponse {
    pub job_ids: Vec<String>,
}

/// One row of the job list.
#[derive(Clone, Debug)]
pub struct JobStatus {
    pub job_id: String,
    pub state: String,
    pub last_error: Option<String>,
    /// RFC 3339.
    pub updated_at: String,
    pub transmission_id: Option<String>,
}

/// The editable settings.
#[derive(Clone, Debug)]
pub struct Settings {
    pub provider_kind: Option<String>,
    pub certificate_thumbprint: Option<String>,
    pub unifiedpost_address: Option<String>,
    pub from_title: Option<String>,
    pub from_eadrese: Option<String>,
}

/// The outcome of a configuration check.
#[derive(Clone, Debug)]
pub struct ConnectionTestResult {
    pub success: bool,
    pub message: String,
}

/// The validation row for a file, from its check outcome.
pub fn validation_result(path: String, outcome: Result<(), Vec<String>>) -> (r: ValidationResult)
    ensures
        r.path == path,
        r.valid == outcome is Ok,
        r.errors@.map_values(|s: String| s@) == outcome_messages(outcome),
{
    match outcome {
        Ok(()) => {
            let errors: Vec<String> = Vec::new();
            assert(errors@.map_values(|s: String| s@) =~= Seq::<Seq<char>>::empty());
            ValidationResult { path, valid: true, errors }
        },
        Err(errors) => ValidationResult { path, valid: false, errors },
    }
}

/// The row for a job; the update time is empty where it cannot be rendered.
pub fn job_status(rec: &JobRecord) -> (r: JobStatus)
    ensures
        r.job_id@ == rec.job_id@,
        r.state@ == state_name(rec.state),
        opt_view(r.last_error) == opt_view(rec.last_error),
        opt_view(r.transmission_id) == opt_view(rec.transmission_id),
        r.updated_at@ == match rfc3339_of(rec.updated_at as int) {
            Some(t) => t,
            None => Seq::empty(),
        },
{
    let updated_at = match format_rfc3339(rec.updated_at) {
        Some(t) => t,
        None => String::new(),
    };
    JobStatus {
        job_id: rec.job_id.clone(),
        state: String::from_str(rec.state.as_str()),
        last_error: clone_opt(&rec.last_error),
        updated_at,
        transmission_id: clone_opt(&rec.transmission_id),
    }
}

/// The editable settings of a configuration.
pub fn settings_of(cfg: &AppConfig) -> (r: Settings)
    ensures
        opt_view(r.provider_kind) == Some(cfg.provider.kind@),
        r.certificate_thumbprint == cfg.certificate.thumbprint,
        r.unifiedpost_address == cfg.provider.base_url,
        r.from_title == cfg.sender.from_title,
        r.from_eadrese == cfg.sender.from_eadrese,
{
    Settings {
        provider_kind: Some(cfg.provider.kind.clone()),
        certificate_thumbprint: clone_opt(&cfg.certificate.thumbprint),
        unifiedpost_address: clone_opt(&cfg.provider.base_url),
        from_title: clone_opt(&cfg.sender.from_title),
        from_eadrese: clone_opt(&cfg.sender.from_eadrese),
    }
}

/// Applies edited settings: the backend kind changes only where one is
/// given; the other settings are replaced as given.
pub fn apply_settings(cfg: &mut AppConfig, settings: Settings)
    ensures
        final(cfg).provider.kind == match settings.provider_kind {
            Some(k) => k,
            None => old(cfg).provider.kind,
        },
        final(cfg).provider.client_id == old(cfg).provider.client_id,
        final(cfg).provider.token_url == old(cfg).provider.token_url,
        final(cfg).certificate.thumbprint == settings.certificate_thumbprint,
        final(cfg).provider.base_url == settings.unifiedpost_address,
        final(cfg).sender.from_title == settings.from_title,
        final(cfg).sender.from_eadrese == settings.from_eadrese,
{
    match settings.provider_kind {
        Some(k) => {
            cfg.provider.kind = k;
        },
        None => {},
    }
    cfg.certificate.thumbprint = settings.certificate_thumbprint;
    cfg.provider.base_url = settings.unifiedpost_address;
    cfg.sender.from_title = settings.from_title;
    cfg.sender.from_eadrese = settings.from_eadrese;
}

/// The verdict of a configuration check: whether the configured backend
/// has what it needs, and why not.
pub open spec fn connection_verdict(cfg: AppConfig, has_api_key: bool, has_client_secret: bool) -> (bool, Seq<char>) {
    let kind = cfg.provider.kind@;
    if kind == "mock"@ {
        (true, "Mock provider is always available (no actual connection)"@)
    } else if kind == "div"@ {
        if !is_set(cfg.provider.base_url) {
            (false, "Service address is required"@)
        } else if !is_set(cfg.certificate.thumbprint) {
            (false, "Certificate thumbprint is required"@)
        } else if !is_set(cfg.sender.from_eadrese) {
            (false, "Sender e-adrese is required"@)
        } else {
            (true, "Configuration validated. Note: Full connection test requires certificates and SOAP signing to be implemented."@)
        }
    } else if kind == "unifiedpost"@ {
        if !is_set(cfg.provider.base_url) {
            (false, "Service address is required"@)
        } else if !has_api_key && !(is_set(cfg.provider.client_id) && has_client_secret) {
            (false, "Authentication credentials required. Set UNIFIEDPOST_API_KEY or configure OAuth2 (client_id and UNIFIEDPOST_CLIENT_SECRET)"@)
        } else if has_api_key {
            (true, "Configuration validated with API key authentication"@)
        } else {
            (true, "Configuration validated with OAuth2 authentication"@)
        }
    } else {
        (false, "Unknown provider type: "@ + kind)
    }
}

fn verdict(success: bool, message: &str) -> (r: ConnectionTestResult)
    ensures
        r.success == success,
        r.message@ == message@,
{
    ConnectionTestResult { success, message: String::from_str(message) }
}

/// Checks that the configured backend has what it needs, given whether an
/// API key and an OAuth2 client secret could be retrieved.
pub fn connection_test(cfg: &AppConfig, has_api_key: bool, has_client_secret: bool) -> (r: ConnectionTestResult)
    ensures
        (r.success, r.message@) == connection_verdict(*cfg, has_api_key, has_client_secret),
{
    proof {
        reveal_strlit("mock");
        reveal_strlit("div");
        reveal_strlit("unifiedpost");
        assert("mock"@.len() != "div"@.len());
        assert("mock"@.len() != "unifiedpost"@.len());
        assert("div"@.len() != "unifiedpost"@.len());
    }
    let kind = cfg.provider.kind.as_str();
    let has_base = match &cfg.provider.base_url {
        Some(u) => !u.as_str().is_empty(),
        None => false,
    };
    if text_eq(kind, "mock") {
        verdict(true, "Mock provider is always available (no actual connection)")
    } else if text_eq(kind, "div") {
        let has_thumb = match &cfg.certificate.thumbprint {
            Some(t) => !t.as_str().is_empty(),
            None => false,
        };
        let has_sender = match &cfg.sender.from_eadrese {
            Some(a) => !a.as_str().is_empty(),
            None => false,
        };
        if !has_base {
            verdict(false, "Service address is required")
        } else if !has_thumb {
            verdict(false, "Certificate thumbprint is required")
        } else if !has_sender {
            verdict(false, "Sender e-adrese is required")
        } else {
            verdict(true, "Configuration validated. Note: Full connection test requires certificates and SOAP signing to be implemented.")
        }
    } else if text_eq(kind, "unifiedpost") {
        let has_client_id = match &cfg.provider.client_id {
            Some(c) => !c.as_str().is_empty(),
            None => false,
        };
        if !has_base {
            verdict(false, "Service address is required")
        } else if !has_api_key && !(has_client_id && has_client_secret) {
            verdict(false, "Authentication credentials required. Set UNIFIEDPOST_API_KEY or configure OAuth2 (client_id and UNIFIEDPOST_CLIENT_SECRET)")
        } else if has_api_key {
            verdict(true, "Configuration validated with API key authentication")
        } else {
            verdict(true, "Configuration validated with OAuth2 authentication")
        }
    } else {
        let mut message = String::from_str("Unknown provider type: ");
        message.append(kind);
        ConnectionTestResult { success: false, message }
    }
}

/// Whether `c` is a letter given by its lower and upper case.
pub open spec fn is_letter_ci(c: char, lower: char, upper: char) -> bool {
    c == lower || c == upper
}

/// Whether a file name has the extension `xml` in any ASCII letter case:
/// the text after its last dot, where something precedes that dot.
pub open spec fn has_xml_extension(name: Seq<char>) -> bool {
    &&& name.len() >= 5
    &&& name[name.len() - 4] == '.'
    &&& is_letter_ci(name[name.len() - 3], 'x', 'X')
    &&& is_letter_ci(name[name.len() - 2], 'm', 'M')
    &&& is_letter_ci(name[name.len() - 1], 'l', 'L')
}

/// Whether a file name names an invoice file: its extension is `xml`, in
/// any ASCII letter case.
pub fn is_invoice_file_name(name: &str) -> (r: bool)
    ensures
        r == has_xml_extension(name@),
{
    let c = crate::text::chars_of(name);
    let n = c.len();
    if n < 5 {
        return false;
    }
    let x = c[n - 3];
    let m = c[n - 2];
    let l = c[n - 1];
    c[n - 4] == '.' && (x == 'x' || x == 'X') && (m == 'm' || m == 'M') && (l == 'l' || l == 'L')
}

} // verus!
