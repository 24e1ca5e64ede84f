//! The transmission queue: job records and payloads keyed by job id, the
//! per-job dispatch state machine, and the listing of jobs newest first.
//!
//! The queue decides; its caller performs. A dispatcher hands each outcome
//! of a backend call back as a `DispatchEvent` and receives the next
//! `DispatchAction` together with the audit event to record.

use vstd::prelude::*;
use crate::audit::AuditEvent;
use crate::boundary::{is_ascii_alphanumeric, now_millis, random_alphanumeric};
use crate::delivery::{error_text, DeliveryState, DeliveryStatus, ProviderError};
use crate::parsing::{compute_sha256_hex, invoice_digest};
use crate::text::{clone_opt, opt_view, text_eq};

verus! {

/// The local phase of one submission.
#[derive(Clone, Copy, Debug, PartialEq, Eq, Structural)]
pub enum JobState {
    Queued,
    InFlight,
    Sent,
    Delivered,
    Failed,
}

/// The name under which a state is stored and shown.
pub open spec fn state_name(s: JobState) -> Seq<char> {
    match s {
        JobState::Queued => "queued"@,
        JobState::InFlight => "in_flight"@,
        JobState::Sent => "sent"@,
        JobState::Delivered => "delivered"@,
        JobState::Failed => "failed"@,
    }
}

/// How far along the lifecycle a state lies.
pub open spec fn state_rank(s: JobState) -> nat {
    match s {
        JobState::Queued => 0,
        JobState::InFlight => 1,
        JobState::Sent => 2,
        JobState::Delivered => 3,
        JobState::Failed => 3,
    }
}

/// Whether a state ends the lifecycle.
pub open spec fn is_terminal(s: JobState) -> bool {
    s == JobState::Delivered || s == JobState::Failed
}

impl JobState {
    /// The state's stored name.
    pub fn as_str(&self) -> (r: &'static str)
        ensures
            r@ == state_name(*self),
    {
        match self {
            JobState::Queued => "queued",
            JobState::InFlight => "in_flight",
            JobState::Sent => "sent",
            JobState::Delivered => "delivered",
            JobState::Failed => "failed",
        }
    }
}

/// The status record of one submission.
#[derive(Clone, Debug)]
pub struct JobRecord {
    pub job_id: String,
    pub state: JobState,
    pub last_error: Option<String>,
    /// Milliseconds since the Unix epoch.
    pub created_at: i64,
    /// Milliseconds since the Unix epoch.
    pub updated_at: i64,
    pub transmission_id: Option<String>,
    pub invoice_hash: String,
}

/// A job record as plain values.
pub struct JobView {
    pub job_id: Seq<char>,
    pub state: JobState,
    pub last_error: Option<Seq<char>>,
    pub created_at: i64,
    pub updated_at: i64,
    pub transmission_id: Option<Seq<char>>,
    pub invoice_hash: Seq<char>,
}

impl View for JobRecord {
    type V = JobView;

    open spec fn view(&self) -> JobView {
        JobView {
            job_id: self.job_id@,
            state: self.state,
            last_error: opt_view(self.last_error),
            created_at: self.created_at,
            updated_at: self.updated_at,
            transmission_id: opt_view(self.transmission_id),
            invoice_hash: self.invoice_hash@,
        }
    }
}

impl JobRecord {
    /// A copy of the record.
    pub fn duplicate(&self) -> (r: JobRecord)
        ensures
            r@ == self@,
    {
        JobRecord {
            job_id: self.job_id.clone(),
            state: self.state,
            last_error: clone_opt(&self.last_error),
            created_at: self.created_at,
            updated_at: self.updated_at,
            transmission_id: clone_opt(&self.transmission_id),
            invoice_hash: self.invoice_hash.clone(),
        }
    }
}

/// The raw inputs of one submission, stored beside its record.
#[derive(Clone, Debug)]
pub struct JobPayload {
    pub xml: String,
    pub sender: String,
    pub receiver: String,
    pub profile: String,
}

/// What a dispatcher reports back about one job.
#[derive(Clone, Debug)]
pub enum DispatchEvent {
    /// Dispatch of the job has begun.
    Started,
    /// The backend accepted the document under this transmission id.
    Submitted { transmission_id: String },
    /// The backend did not accept the document.
    SubmitFailed { error: ProviderError },
    /// The backend answered a status query.
    Polled { status: DeliveryStatus },
    /// The status query itself failed.
    PollFailed { error: ProviderError },
}

/// What a dispatcher is to do next for one job.
#[derive(Clone, Debug)]
pub enum DispatchAction {
    /// Submit the job's payload to the backend.
    Submit,
    /// Query the backend for the status of this transmission.
    PollStatus { transmission_id: String },
    /// Nothing more.
    Done,
}

/// The local state a backend's delivery state leads to; a pending answer
/// leaves the job where submission put it.
pub open spec fn local_state(d: DeliveryState) -> JobState {
    match d {
        DeliveryState::Delivered => JobState::Delivered,
        DeliveryState::Failed => JobState::Failed,
        DeliveryState::InFlight => JobState::InFlight,
        DeliveryState::Pending => JobState::Sent,
    }
}

/// Whether a job has been submitted and waits for a status answer.
pub open spec fn awaiting_status(r: JobView) -> bool {
    r.transmission_id is Some && (r.state == JobState::Sent || r.state == JobState::InFlight)
}

/// Whether a job is being submitted.
pub open spec fn submitting(r: JobView) -> bool {
    r.state == JobState::InFlight && r.transmission_id is None
}

/// The text recorded when a status query fails.
pub open spec fn status_error_text(e: ProviderError) -> Seq<char> {
    "status error: "@ + error_text(e)
}

/// The record after `e` happens to a job in `r` at time `now`, or `None`
/// where `e` cannot happen in `r`'s state.
pub open spec fn next_view(r: JobView, e: DispatchEvent, now: i64) -> Option<JobView> {
    match e {
        DispatchEvent::Started => if r.state == JobState::Queued {
            Some(JobView { state: JobState::InFlight, updated_at: now, last_error: None, ..r })
        } else {
            None
        },
        DispatchEvent::Submitted { transmission_id } => if submitting(r) {
            Some(JobView {
                state: JobState::Sent,
                updated_at: now,
                last_error: None,
                transmission_id: Some(transmission_id@),
                ..r
            })
        } else {
            None
        },
        DispatchEvent::SubmitFailed { error } => if submitting(r) {
            Some(JobView {
                state: JobState::Failed,
                updated_at: now,
                last_error: Some(error_text(error)),
                ..r
            })
        } else {
            None
        },
        DispatchEvent::Polled { status } => if awaiting_status(r) {
            Some(JobView {
                state: local_state(status.state),
                updated_at: now,
                last_error: if status.state == DeliveryState::Failed {
                    opt_view(status.message)
                } else {
                    None
                },
                ..r
            })
        } else {
            None
        },
        DispatchEvent::PollFailed { error } => if awaiting_status(r) {
            Some(JobView {
                state: JobState::Failed,
                updated_at: now,
                last_error: Some(status_error_text(error)),
                ..r
            })
        } else {
            None
        },
    }
}

impl JobRecord {
    /// The record after `event` at time `now`, or `None` where the event
    /// cannot happen in the record's state.
    pub fn apply(&self, event: &DispatchEvent, now: i64) -> (r: Option<JobRecord>)
        ensures
            match r {
                Some(n) => next_view(self@, *event, now) == Some(n@),
                None => next_view(self@, *event, now) is None,
            },
    {
        let awaiting = self.transmission_id.is_some()
            && (self.state == JobState::Sent || self.state == JobState::InFlight);
        let in_submission = self.state == JobState::InFlight && self.transmission_id.is_none();
        match event {
            DispatchEvent::Started => {
                if self.state != JobState::Queued {
                    return None;
                }
                let mut n = self.duplicate();
                n.state = JobState::InFlight;
                n.updated_at = now;
                n.last_error = None;
                Some(n)
            },
            DispatchEvent::Submitted { transmission_id } => {
                if !in_submission {
                    return None;
                }
                let mut n = self.duplicate();
                n.state = JobState::Sent;
                n.updated_at = now;
                n.last_error = None;
                n.transmission_id = Some(transmission_id.clone());
                Some(n)
            },
            DispatchEvent::SubmitFailed { error } => {
                if !in_submission {
                    return None;
                }
                let mut n = self.duplicate();
                n.state = JobState::Failed;
                n.updated_at = now;
                n.last_error = Some(error.message());
                Some(n)
            },
            DispatchEvent::Polled { status } => {
                if !awaiting {
                    return None;
                }
                let mut n = self.duplicate();
                n.state = match status.state {
                    DeliveryState::Delivered => JobState::Delivered,
                    DeliveryState::Failed => JobState::Failed,
                    DeliveryState::InFlight => JobState::InFlight,
                    DeliveryState::Pending => JobState::Sent,
                };
                n.updated_at = now;
                n.last_error = match status.state {
                    DeliveryState::Failed => clone_opt(&status.message),
                    _ => None,
                };
                Some(n)
            },
            DispatchEvent::PollFailed { error } => {
                if !awaiting {
                    return None;
                }
                let mut n = self.duplicate();
                n.state = JobState::Failed;
                n.updated_at = now;
                let mut text = String::from_str("status error: ");
                let detail = error.message();
                text.append(detail.as_str());
                n.last_error = Some(text);
                Some(n)
            },
        }
    }
}

impl JobPayload {
    /// A copy of the payload.
    pub fn duplicate(&self) -> (r: JobPayload)
        ensures
            r == *self,
    {
        JobPayload {
            xml: self.xml.clone(),
            sender: self.sender.clone(),
            receiver: self.receiver.clone(),
            profile: self.profile.clone(),
        }
    }
}

/// Why a queue operation was refused.
#[derive(Clone, Debug)]
pub enum QueueError {
    /// No job is stored under this id.
    NotFound { job_id: String },
    /// The event cannot happen to the job in its current state.
    InvalidTransition { job_id: String, state: JobState },
    /// A job is already stored under this id.
    DuplicateId { job_id: String },
}

impl QueueError {
    /// The error's text.
    pub fn message(&self) -> (r: String)
        ensures
            match self {
                QueueError::NotFound { job_id } => r@ == "job not found: "@ + job_id@,
                QueueError::InvalidTransition { job_id, state } => r@ == "invalid transition for job "@ + job_id@ + " in state "@ + state_name(*state),
                QueueError::DuplicateId { job_id } => r@ == "job already exists: "@ + job_id@,
            },
    {
        match self {
            QueueError::NotFound { job_id } => {
                let mut out = String::from_str("job not found: ");
                out.append(job_id.as_str());
                out
            },
            QueueError::InvalidTransition { job_id, state } => {
                let mut out = String::from_str("invalid transition for job ");
                out.append(job_id.as_str());
                out.append(" in state ");
                out.append(state.as_str());
                out
            },
            QueueError::DuplicateId { job_id } => {
                let mut out = String::from_str("job already exists: ");
                out.append(job_id.as_str());
                out
            },
        }
    }
}

/// The audit event type an event is recorded under; dispatch start has none.
pub open spec fn audit_type(e: DispatchEvent) -> Option<Seq<char>> {
    match e {
        DispatchEvent::Started => None,
        DispatchEvent::Submitted { .. } => Some("invoice_submitted"@),
        DispatchEvent::SubmitFailed { .. } => Some("submission_failed"@),
        DispatchEvent::Polled { .. } => Some("delivery_status_updated"@),
        DispatchEvent::PollFailed { .. } => Some("delivery_status_error"@),
    }
}

/// The error an audit event carries for an event.
pub open spec fn audit_error(e: DispatchEvent) -> Option<Seq<char>> {
    match e {
        DispatchEvent::SubmitFailed { error } => Some(error_text(error)),
        DispatchEvent::PollFailed { error } => Some(error_text(error)),
        DispatchEvent::Polled { status } => if status.state == DeliveryState::Failed {
            opt_view(status.message)
        } else {
            None
        },
        _ => None,
    }
}

/// Whether `a` is the audit event for job `n` having gone through `e`.
pub open spec fn audit_fits(a: AuditEvent, n: JobView, e: DispatchEvent) -> bool {
    &&& Some(a.event_type@) == audit_type(e)
    &&& a.job_id@ == n.job_id
    &&& a.state@ == state_name(n.state)
    &&& opt_view(a.error) == audit_error(e)
    &&& a.invoice_hash is None
    &&& a.sender is None
    &&& a.receiver is None
    &&& opt_view(a.transmission_id) == (match e {
        DispatchEvent::Submitted { .. } | DispatchEvent::Polled { .. } => n.transmission_id,
        _ => None,
    })
}

/// Whether `a` is what a dispatcher is to do after `e`.
pub open spec fn action_fits(a: DispatchAction, e: DispatchEvent) -> bool {
    match e {
        DispatchEvent::Started => a is Submit,
        DispatchEvent::Submitted { transmission_id } => a matches DispatchAction::PollStatus { transmission_id: t } && t@ == transmission_id@,
        _ => a is Done,
    }
}

/// The outcome of one accepted event: the audit event to record, if any,
/// and what to do next.
#[derive(Clone, Debug)]
pub struct DispatchStep {
    pub audit: Option<AuditEvent>,
    pub action: DispatchAction,
}

/// The outcome of an accepted submission: the new job's id and the audit
/// event that records it.
#[derive(Clone, Debug)]
pub struct Enqueued {
    pub job_id: String,
    pub audit: AuditEvent,
}

/// Whether some job in `jobs` has the id `id`.
pub open spec fn has_id(jobs: Seq<JobView>, id: Seq<char>) -> bool {
    exists|i: int| 0 <= i < jobs.len() && jobs[i].job_id == id
}

/// Whether no two jobs share an id.
pub open spec fn unique_ids(jobs: Seq<JobView>) -> bool {
    forall|i: int, j: int|
        0 <= i < jobs.len() && 0 <= j < jobs.len() && i != j ==> jobs[i].job_id != jobs[j].job_id
}

/// Whether the job at index `a` is listed before the one at index `b`:
/// newer first, and of two created at the same instant the later stored.
pub open spec fn listed_before(jobs: Seq<JobView>, a: int, b: int) -> bool {
    jobs[a].created_at > jobs[b].created_at || (jobs[a].created_at == jobs[b].created_at && a > b)
}

/// Whether `order` lists every index of `jobs` once, newest first.
pub open spec fn is_listing(jobs: Seq<JobView>, order: Seq<usize>) -> bool {
    &&& order.len() == jobs.len()
    &&& forall|k: int| 0 <= k < order.len() ==> order[k] < jobs.len()
    &&& forall|i: usize| i < jobs.len() ==> #[trigger] order.contains(i)
    &&& forall|a: int, b: int| 0 <= a < b < order.len() ==> listed_before(jobs, order[a] as int, order[b] as int)
}

/// A fresh job id: twelve random ASCII letters and digits.
pub fn generate_job_id() -> (r: String)
    ensures
        r@.len() == 12,
        forall|i: int| 0 <= i < 12 ==> is_ascii_alphanumeric(#[trigger] r@[i]),
{
    random_alphanumeric(12)
}

/// The job records and payloads, keyed by job id.
pub struct Queue {
    records: Vec<JobRecord>,
    payloads: Vec<JobPayload>,
}

impl Queue {
    /// The stored jobs, in the order they were stored.
    pub closed spec fn jobs(&self) -> Seq<JobView> {
        self.records@.map_values(|r: JobRecord| r@)
    }

    /// The stored payloads; the one at each index belongs to the job at that index.
    pub closed spec fn stored_payloads(&self) -> Seq<JobPayload> {
        self.payloads@
    }

    /// Every job has its payload, and no two jobs share an id.
    pub closed spec fn wf(&self) -> bool {
        &&& self.records.len() == self.payloads.len()
        &&& unique_ids(self.jobs())
    }

    /// An empty queue.
    pub fn new() -> (r: Queue)
        ensures
            r.wf(),
            r.jobs() == Seq::<JobView>::empty(),
            r.stored_payloads() == Seq::<JobPayload>::empty(),
    {
        let r = Queue { records: Vec::new(), payloads: Vec::new() };
        assert(r.jobs() =~= Seq::<JobView>::empty());
        r
    }

    /// The number of stored jobs.
    pub fn len(&self) -> (r: usize)
        requires
            self.wf(),
        ensures
            r == self.jobs().len(),
    {
        self.records.len()
    }

    fn find(&self, job_id: &str) -> (r: Option<usize>)
        requires
            self.wf(),
        ensures
            match r {
                Some(i) => i < self.jobs().len() && self.jobs()[i as int].job_id == job_id@,
                None => !has_id(self.jobs(), job_id@),
            },
    {
        let mut i: usize = 0;
        while i < self.records.len()
            invariant
                self.wf(),
                0 <= i <= self.records.len(),
                forall|k: int| 0 <= k < i ==> self.jobs()[k].job_id != job_id@,
            decreases self.records.len() - i,
        {
            if text_eq(self.records[i].job_id.as_str(), job_id) {
                return Some(i);
            }
            i = i + 1;
        }
        None
    }

    /// A copy of the record stored under `job_id`.
    pub fn get(&self, job_id: &str) -> (r: Option<JobRecord>)
        requires
            self.wf(),
        ensures
            r is None <==> !has_id(self.jobs(), job_id@),
            r matches Some(rec) ==> rec@.job_id == job_id@ && self.jobs().contains(rec@),
    {
        match self.find(job_id) {
            Some(i) => {
                let rec = self.records[i].duplicate();
                assert(self.jobs()[i as int] == rec@);
                Some(rec)
            },
            None => None,
        }
    }

    /// A copy of the payload stored under `job_id`.
    pub fn payload(&self, job_id: &str) -> (r: Option<JobPayload>)
        requires
            self.wf(),
        ensures
            r is None <==> !has_id(self.jobs(), job_id@),
            r matches Some(p) ==> exists|i: int|
                0 <= i < self.jobs().len() && self.jobs()[i].job_id == job_id@
                    && self.stored_payloads()[i] == p,
    {
        match self.find(job_id) {
            Some(i) => {
                let p = self.payloads[i].duplicate();
                assert(self.stored_payloads()[i as int] == p);
                Some(p)
            },
            None => None,
        }
    }

    /// Stores a job read back from durable storage, with its payload;
    /// a job whose id is already stored is refused and nothing changes.
    pub fn restore(&mut self, record: JobRecord, payload: JobPayload) -> (r: Result<(), QueueError>)
        requires
            old(self).wf(),
        ensures
            final(self).wf(),
            has_id(old(self).jobs(), record.job_id@) ==> (r matches Err(QueueError::DuplicateId { job_id })
                && job_id@ == record.job_id@ && final(self).jobs() == old(self).jobs()
                && final(self).stored_payloads() == old(self).stored_payloads()),
            !has_id(old(self).jobs(), record.job_id@) ==> (r is Ok
                && final(self).jobs() == old(self).jobs().push(record@)
                && final(self).stored_payloads() == old(self).stored_payloads().push(payload)),
    {
        if self.find(record.job_id.as_str()).is_some() {
            return Err(QueueError::DuplicateId { job_id: record.job_id });
        }
        let ghost old_jobs = self.jobs();
        self.records.push(record);
        self.payloads.push(payload);
        proof {
            assert(self.jobs() =~= old_jobs.push(self.records@.last()@));
        }
        Ok(())
    }

    /// Stores a new job for `payload`, in state `queued`, under a fresh
    /// random id; the record and its payload are stored together or not
    /// at all.
    pub fn enqueue(&mut self, payload: JobPayload) -> (r: Result<Enqueued, QueueError>)
        requires
            old(self).wf(),
        ensures
            final(self).wf(),
            match r {
                Ok(en) => {
                    let n = old(self).jobs().len();
                    let job = final(self).jobs()[n as int];
                    &&& !has_id(old(self).jobs(), en.job_id@)
                    &&& en.job_id@.len() == 12
                    &&& final(self).jobs().len() == n + 1
                    &&& final(self).jobs().take(n as int) == old(self).jobs()
                    &&& final(self).stored_payloads() == old(self).stored_payloads().push(payload)
                    &&& job.job_id == en.job_id@
                    &&& job.state == JobState::Queued
                    &&& job.last_error is None
                    &&& job.transmission_id is None
                    &&& job.invoice_hash == invoice_digest(payload.xml@)
                    &&& job.created_at == job.updated_at
                    &&& en.audit.event_type@ == "job_enqueued"@
                    &&& en.audit.job_id@ == en.job_id@
                    &&& en.audit.state@ == "queued"@
                    &&& opt_view(en.audit.invoice_hash) == Some(job.invoice_hash)
                    &&& opt_view(en.audit.sender) == Some(payload.sender@)
                    &&& opt_view(en.audit.receiver) == Some(payload.receiver@)
                    &&& en.audit.transmission_id is None
                    &&& en.audit.error is None
                },
                Err(e) => {
                    &&& e matches QueueError::DuplicateId { job_id } && has_id(old(self).jobs(), job_id@)
                    &&& final(self).jobs() == old(self).jobs()
                    &&& final(self).stored_payloads() == old(self).stored_payloads()
                },
            },
    {
        let job_id = generate_job_id();
        if self.find(job_id.as_str()).is_some() {
            return Err(QueueError::DuplicateId { job_id });
        }
        let hash = compute_sha256_hex(payload.xml.as_str());
        let now = now_millis();
        let rec = JobRecord {
            job_id: job_id.clone(),
            state: JobState::Queued,
            last_error: None,
            created_at: now,
            updated_at: now,
            transmission_id: None,
            invoice_hash: hash.clone(),
        };
        let audit = AuditEvent::new("job_enqueued", job_id.as_str(), "queued")
            .with_hash(hash)
            .with_parties(payload.sender.clone(), payload.receiver.clone());
        let ghost old_jobs = self.jobs();
        self.records.push(rec);
        self.payloads.push(payload);
        proof {
            assert(self.jobs() =~= old_jobs.push(self.records@.last()@));
            assert(self.jobs().take(old_jobs.len() as int) =~= old_jobs);
        }
        Ok(Enqueued { job_id, audit })
    }

    /// Applies `event` at time `now` to the job stored under `job_id`:
    /// a job that is not stored, or for which the event cannot happen in
    /// its state, is reported and nothing is changed.
    pub fn update_state(&mut self, job_id: &str, event: DispatchEvent, now: i64) -> (r: Result<DispatchStep, QueueError>)
        requires
            old(self).wf(),
        ensures
            final(self).wf(),
            final(self).stored_payloads() == old(self).stored_payloads(),
            !has_id(old(self).jobs(), job_id@) ==> (r matches Err(QueueError::NotFound { job_id: id })
                && id@ == job_id@ && final(self).jobs() == old(self).jobs()),
            forall|i: int| 0 <= i < old(self).jobs().len() && #[trigger] old(self).jobs()[i].job_id == job_id@ ==>
                match next_view(old(self).jobs()[i], event, now) {
                    None => r matches Err(QueueError::InvalidTransition { job_id: id, state })
                        && id@ == job_id@ && state == old(self).jobs()[i].state
                        && final(self).jobs() == old(self).jobs(),
                    Some(v) => r matches Ok(step)
                        && final(self).jobs() == old(self).jobs().update(i, v)
                        && action_fits(step.action, event)
                        && match step.audit {
                            Some(a) => audit_fits(a, v, event),
                            None => audit_type(event) is None,
                        },
                },
    {
        let i = match self.find(job_id) {
            None => {
                return Err(QueueError::NotFound { job_id: job_id.to_owned() });
            },
            Some(i) => i,
        };
        let ghost old_jobs = self.jobs();
        proof {
            assert forall|k: int| 0 <= k < old_jobs.len() && #[trigger] old_jobs[k].job_id == job_id@
                implies k == i by {}
        }
        match self.records[i].apply(&event, now) {
            None => Err(QueueError::InvalidTransition { job_id: job_id.to_owned(), state: self.records[i].state }),
            Some(n) => {
                let audit = audit_for(&n, &event);
                let action = action_for(&event);
                self.records.set(i, n);
                proof {
                    assert(self.jobs() =~= old_jobs.update(i as int, self.records@[i as int]@));
                }
                Ok(DispatchStep { audit, action })
            },
        }
    }

    /// The order in which the jobs are listed, as indices into the stored jobs.
    pub fn listing_order(&self) -> (r: Vec<usize>)
        requires
            self.wf(),
        ensures
            is_listing(self.jobs(), r@),
    {
        let n = self.records.len();
        let ghost jobs = self.jobs();
        let mut out: Vec<usize> = Vec::new();
        let mut j: usize = 0;
        while j < n
            invariant
                jobs == self.jobs(),
                n == jobs.len(),
                0 <= j <= n,
                out.len() == j,
                forall|k: int| 0 <= k < out.len() ==> out@[k] < j,
                forall|x: usize| x < j ==> #[trigger] out@.contains(x),
                forall|a: int, b: int| 0 <= a < b < out.len() ==> listed_before(jobs, out@[a] as int, out@[b] as int),
            decreases n - j,
        {
            let cj = self.records[j].created_at;
            let mut p: usize = 0;
            while p < out.len() && self.records[out[p]].created_at > cj
                invariant
                    jobs == self.jobs(),
                    n == jobs.len(),
                    j < n,
                    cj == jobs[j as int].created_at,
                    0 <= p <= out.len(),
                    forall|k: int| 0 <= k < out.len() ==> out@[k] < j,
                    forall|a: int| 0 <= a < p ==> listed_before(jobs, out@[a] as int, j as int),
                decreases out.len() - p,
            {
                p = p + 1;
            }
            let ghost before = out@;
            proof {
                if p < out.len() {
                    assert(listed_before(jobs, j as int, before[p as int] as int));
                    assert forall|q: int| p <= q < before.len() implies listed_before(jobs, j as int, before[q] as int) by {
                        if q > p {
                            assert(listed_before(jobs, before[p as int] as int, before[q] as int));
                        }
                    }
                }
            }
            out.insert(p, j);
            proof {
                assert(out@ == before.insert(p as int, j));
                assert forall|a: int, b: int| 0 <= a < b < out.len() implies listed_before(jobs, out@[a] as int, out@[b] as int) by {
                    if a < p && b < p {
                    } else if a < p && b == p {
                    } else if a < p && b > p {
                        assert(out@[b] == before[b - 1]);
                    } else if a == p {
                        assert(out@[b] == before[b - 1]);
                    } else {
                        assert(out@[a] == before[a - 1]);
                        assert(out@[b] == before[b - 1]);
                    }
                }
                assert forall|x: usize| x < j + 1 implies #[trigger] out@.contains(x) by {
                    if x < j {
                        assert(before.contains(x));
                        let k = choose|k: int| 0 <= k < before.len() && before[k] == x;
                        if k < p {
                            assert(out@[k] == x);
                        } else {
                            assert(out@[k + 1] == x);
                        }
                    } else {
                        assert(out@[p as int] == x);
                    }
                }
                assert forall|k: int| 0 <= k < out.len() implies out@[k] < j + 1 by {
                    if k < p {
                    } else if k > p {
                        assert(out@[k] == before[k - 1]);
                    }
                }
            }
            j = j + 1;
        }
        out
    }

    /// All stored jobs, newest first; of jobs created at the same instant,
    /// the one stored later comes first.
    pub fn list(&self) -> (r: Vec<JobRecord>)
        requires
            self.wf(),
        ensures
            exists|order: Seq<usize>| #[trigger] is_listing(self.jobs(), order)
                && r@.len() == order.len()
                && forall|k: int| 0 <= k < order.len() ==> #[trigger] r@[k]@ == self.jobs()[order[k] as int],
    {
        let order = self.listing_order();
        let mut out: Vec<JobRecord> = Vec::new();
        let mut k: usize = 0;
        while k < order.len()
            invariant
                self.wf(),
                is_listing(self.jobs(), order@),
                0 <= k <= order.len(),
                out.len() == k,
                forall|t: int| 0 <= t < k ==> #[trigger] out@[t]@ == self.jobs()[order@[t] as int],
            decreases order.len() - k,
        {
            let rec = self.records[order[k]].duplicate();
            out.push(rec);
            k = k + 1;
        }
        out
    }
}

/// The audit event for a job now in `n` after `event`.
fn audit_for(n: &JobRecord, event: &DispatchEvent) -> (r: Option<AuditEvent>)
    ensures
        match r {
            Some(a) => audit_fits(a, n@, *event),
            None => audit_type(*event) is None,
        },
{
    match event {
        DispatchEvent::Started => None,
        DispatchEvent::Submitted { .. } => {
            let e = AuditEvent::new("invoice_submitted", n.job_id.as_str(), n.state.as_str());
            Some(match &n.transmission_id {
                Some(t) => e.with_transmission_id(t.clone()),
                None => e,
            })
        },
        DispatchEvent::SubmitFailed { error } => {
            let e = AuditEvent::new("submission_failed", n.job_id.as_str(), n.state.as_str());
            Some(e.with_error(error.message()))
        },
        DispatchEvent::Polled { status } => {
            let e = AuditEvent::new("delivery_status_updated", n.job_id.as_str(), n.state.as_str());
            let e = match &n.transmission_id {
                Some(t) => e.with_transmission_id(t.clone()),
                None => e,
            };
            let e = match status.state {
                DeliveryState::Failed => match &status.message {
                    Some(m) => e.with_error(m.clone()),
                    None => e,
                },
                _ => e,
            };
            Some(e)
        },
        DispatchEvent::PollFailed { error } => {
            let e = AuditEvent::new("delivery_status_error", n.job_id.as_str(), n.state.as_str());
            Some(e.with_error(error.message()))
        },
    }
}

/// What a dispatcher is to do after `event`.
fn action_for(event: &DispatchEvent) -> (r: DispatchAction)
    ensures
        action_fits(r, *event),
{
    match event {
        DispatchEvent::Started => DispatchAction::Submit,
        DispatchEvent::Submitted { transmission_id } => DispatchAction::PollStatus { transmission_id: transmission_id.clone() },
        _ => DispatchAction::Done,
    }
}

/// The event that a submission's outcome reports.
pub fn submit_event(outcome: Result<String, ProviderError>) -> (r: DispatchEvent)
    ensures
        match outcome {
            Ok(t) => r == (DispatchEvent::Submitted { transmission_id: t }),
            Err(e) => r == (DispatchEvent::SubmitFailed { error: e }),
        },
{
    match outcome {
        Ok(t) => DispatchEvent::Submitted { transmission_id: t },
        Err(e) => DispatchEvent::SubmitFailed { error: e },
    }
}

/// The event that a status query's outcome reports.
pub fn status_event(outcome: Result<DeliveryStatus, ProviderError>) -> (r: DispatchEvent)
    ensures
        match outcome {
            Ok(s) => r == (DispatchEvent::Polled { status: s }),
            Err(e) => r == (DispatchEvent::PollFailed { error: e }),
        },
{
    match outcome {
        Ok(s) => DispatchEvent::Polled { status: s },
        Err(e) => DispatchEvent::PollFailed { error: e },
    }
}

/// How long, in milliseconds, a dispatcher waits after submission before
/// it queries the status.
pub const STATUS_POLL_DELAY_MS: u64 = 100;

/// Stores a job for sending `xml` from `sender` to `receiver` under
/// document profile `profile`.
pub fn enqueue_send_job(queue: &mut Queue, xml: &str, sender: &str, receiver: &str, profile: &str) -> (r: Result<Enqueued, QueueError>)
    requires
        old(queue).wf(),
    ensures
        final(queue).wf(),
        match r {
            Ok(en) => {
                let n = old(queue).jobs().len();
                let job = final(queue).jobs()[n as int];
                let p = final(queue).stored_payloads()[n as int];
                &&& !has_id(old(queue).jobs(), en.job_id@)
                &&& en.job_id@.len() == 12
                &&& final(queue).jobs().len() == n + 1
                &&& final(queue).jobs().take(n as int) == old(queue).jobs()
                &&& final(queue).stored_payloads().take(n as int) == old(queue).stored_payloads()
                &&& p.xml@ == xml@ && p.sender@ == sender@ && p.receiver@ == receiver@ && p.profile@ == profile@
                &&& job.job_id == en.job_id@
                &&& job.state == JobState::Queued
                &&& job.transmission_id is None
                &&& job.last_error is None
                &&& job.invoice_hash == invoice_digest(xml@)
            },
            Err(e) => e is DuplicateId && final(queue).jobs() == old(queue).jobs()
                && final(queue).stored_payloads() == old(queue).stored_payloads(),
        },
{
    let payload = JobPayload {
        xml: xml.to_owned(),
        sender: sender.to_owned(),
        receiver: receiver.to_owned(),
        profile: profile.to_owned(),
    };
    let ghost old_payloads = queue.stored_payloads();
    let r = queue.enqueue(payload);
    proof {
        if r is Ok {
            assert(queue.stored_payloads().take(old_payloads.len() as int) =~= old_payloads);
        }
    }
    r
}

/// All jobs, newest first.
pub fn list_status(queue: &Queue) -> (r: Vec<JobRecord>)
    requires
        queue.wf(),
    ensures
        exists|order: Seq<usize>| #[trigger] is_listing(queue.jobs(), order)
            && r@.len() == order.len()
            && forall|k: int| 0 <= k < order.len() ==> #[trigger] r@[k]@ == queue.jobs()[order[k] as int],
{
    queue.list()
}

/// Whether a job's transmission id agrees with its state: absent while
/// queued or being submitted, present once sent or delivered.
pub open spec fn transmission_id_consistent(r: JobView) -> bool {
    &&& (r.state == JobState::Queued || r.state == JobState::InFlight) ==> r.transmission_id is None
    &&& (r.state == JobState::Sent || r.state == JobState::Delivered) ==> r.transmission_id is Some
}

/// Whether an event is a status answer that the delivery is still in flight.
pub open spec fn is_in_flight_answer(e: DispatchEvent) -> bool {
    e matches DispatchEvent::Polled { status } && status.state == DeliveryState::InFlight
}

/// A job's id, creation time and invoice digest never change: every
/// transition keeps them as they were at enqueue time.
pub proof fn lemma_identity_preserved(r: JobView, e: DispatchEvent, now: i64)
    requires
        next_view(r, e, now) is Some,
    ensures
        next_view(r, e, now)->0.invoice_hash == r.invoice_hash,
        next_view(r, e, now)->0.job_id == r.job_id,
        next_view(r, e, now)->0.created_at == r.created_at,
{
}

/// A newly enqueued job has no transmission id, and every transition
/// keeps the transmission id consistent with the state, except a status
/// answer that the delivery is still in flight, which moves a sent job
/// back to `in_flight` with its transmission id kept.
pub proof fn lemma_transmission_id_follows_state(r: JobView, e: DispatchEvent, now: i64)
    requires
        transmission_id_consistent(r),
        next_view(r, e, now) is Some,
        !is_in_flight_answer(e),
    ensures
        transmission_id_consistent(next_view(r, e, now)->0),
{
}

/// A job in `delivered` or `failed` accepts no further event, so it never
/// reports an earlier state.
pub proof fn lemma_terminal_is_final(r: JobView, e: DispatchEvent, now: i64)
    requires
        is_terminal(r.state),
    ensures
        next_view(r, e, now) is None,
{
}

/// Transitions move forward along `queued -> in_flight -> sent ->
/// {delivered, failed}`, except a status answer that the delivery is
/// still in flight.
pub proof fn lemma_state_moves_forward(r: JobView, e: DispatchEvent, now: i64)
    requires
        next_view(r, e, now) is Some,
        !is_in_flight_answer(e),
    ensures
        state_rank(next_view(r, e, now)->0.state) > state_rank(r.state)
            || (next_view(r, e, now)->0.state == r.state && r.state == JobState::Sent),
{
}

/// A listing runs from newest to oldest by creation time.
pub proof fn lemma_listing_newest_first(jobs: Seq<JobView>, order: Seq<usize>, a: int, b: int)
    requires
        is_listing(jobs, order),
        0 <= a < b < order.len(),
    ensures
        jobs[order[a] as int].created_at >= jobs[order[b] as int].created_at,
{
    assert(listed_before(jobs, order[a] as int, order[b] as int));
}

/// A job stored last, and created no earlier than every other job, is
/// listed first.
pub proof fn lemma_new_job_listed_first(jobs: Seq<JobView>, job: JobView, order: Seq<usize>)
    requires
        is_listing(jobs.push(job), order),
        jobs.len() < usize::MAX,
        forall|i: int| 0 <= i < jobs.len() ==> jobs[i].created_at <= job.created_at,
    ensures
        order[0] == jobs.len(),
{
    let all = jobs.push(job);
    let m = jobs.len() as usize;
    assert(order.contains(m));
    let k = choose|k: int| 0 <= k < order.len() && order[k] == m;
    if k > 0 {
        assert(listed_before(all, order[0] as int, order[k] as int));
        if order[0] < m {
            assert(all[order[0] as int] == jobs[order[0] as int]);
            assert(jobs[order[0] as int].created_at <= job.created_at);
        }
    }
}

} // verus!
