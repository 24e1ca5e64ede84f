//! Audit events: immutable facts about each step of a job, appended one per
//! line to a durable log. Writing the log is left to the caller; this module
//! decides what each event holds.

use vstd::prelude::*;
use crate::boundary::now_millis;

verus! {

/// One audit fact: when, what kind, about which job, and what came of it.
#[derive(Clone, Debug)]
pub struct AuditEvent {
    /// Milliseconds since the Unix epoch.
    pub timestamp: i64,
    pub event_type: String,
    pub job_id: String,
    pub invoice_hash: Option<String>,
    pub transmission_id: Option<String>,
    pub state: String,
    pub error: Option<String>,
    pub sender: Option<String>,
    pub receiver: Option<String>,
}

impl AuditEvent {
    /// An event of the given type about a job that is now in `state`, stamped with the current time.
    pub fn new(event_type: &str, job_id: &str, state: &str) -> (r: Self)
        ensures
            r.event_type@ == event_type@,
            r.job_id@ == job_id@,
            r.state@ == state@,
            r.invoice_hash is None,
            r.transmission_id is None,
            r.error is None,
            r.sender is None,
            r.receiver is None,
    {
        AuditEvent {
            timestamp: now_millis(),
            event_type: event_type.to_owned(),
            job_id: job_id.to_owned(),
            invoice_hash: None,
            transmission_id: None,
            state: state.to_owned(),
            error: None,
            sender: None,
            receiver: None,
        }
    }

    /// The same event, carrying the invoice's content digest.
    pub fn with_hash(self, hash: String) -> (r: Self)
        ensures
            r == (AuditEvent { invoice_hash: Some(hash), ..self }),
    {
        let mut e = self;
        e.invoice_hash = Some(hash);
        e
    }

    /// The same event, carrying the backend's transmission id.
    pub fn with_transmission_id(self, transmission_id: String) -> (r: Self)
        ensures
            r == (AuditEvent { transmission_id: Some(transmission_id), ..self }),
    {
        let mut e = self;
        e.transmission_id = Some(transmission_id);
        e
    }

    /// The same event, carrying an error text.
    pub fn with_error(self, error: String) -> (r: Self)
        ensures
            r == (AuditEvent { error: Some(error), ..self }),
    {
        let mut e = self;
        e.error = Some(error);
        e
    }

    /// The same event, carrying the sending and receiving parties.
    pub fn with_parties(self, sender: String, receiver: String) -> (r: Self)
        ensures
            r == (AuditEvent { sender: Some(sender), receiver: Some(receiver), ..self }),
    {
        let mut e = self;
        e.sender = Some(sender);
        e.receiver = Some(receiver);
        e
    }
}

/// The file the audit log is appended to.
pub fn audit_log_path() -> (r: String)
    ensures
        r@ == "audit.jsonl"@,
{
    String::from_str("audit.jsonl")
}

} // verus!
