use einvoice_delivery::config::{select_access_point, AccessPointClient, AppConfig};
use einvoice_delivery::delivery::{DeliveryState, DeliveryStatus, ProviderError};
use einvoice_delivery::mock::MockClient;
use einvoice_delivery::parsing::compute_sha256_hex;
use einvoice_delivery::queue::{
    enqueue_send_job, list_status, status_event, submit_event, DispatchAction, DispatchEvent, JobPayload,
    JobState, Queue, QueueError,
};
use einvoice_delivery::unifiedpost::UnifiedpostAuth;

const INVOICE: &str = r#"<?xml version="1.0" encoding="UTF-8"?>
<Invoice xmlns="urn:oasis:names:specification:ubl:schema:xsd:Invoice-2"
         xmlns:cbc="urn:oasis:names:specification:ubl:schema:xsd:CommonBasicComponents-2"
         xmlns:cac="urn:oasis:names:specification:ubl:schema:xsd:CommonAggregateComponents-2">
  <cbc:ID>INV-001</cbc:ID>
  <cbc:IssueDate>2024-01-15</cbc:IssueDate>
  <cbc:DocumentCurrencyCode>EUR</cbc:DocumentCurrencyCode>
  <cac:AccountingSupplierParty><cac:Party><cac:PartyName><cbc:Name>Seller Ltd</cbc:Name></cac:PartyName></cac:Party></cac:AccountingSupplierParty>
  <cac:AccountingCustomerParty><cac:Party><cac:PartyName><cbc:Name>Buyer Ltd</cbc:Name></cac:PartyName></cac:Party></cac:AccountingCustomerParty>
  <cac:LegalMonetaryTotal><cbc:PayableAmount currencyID="EUR">100.00</cbc:PayableAmount></cac:LegalMonetaryTotal>
</Invoice>"#;

fn payload(xml: &str) -> JobPayload {
    JobPayload {
        xml: xml.to_string(),
        sender: "S1".to_string(),
        receiver: "R1".to_string(),
        profile: "en16931".to_string(),
    }
}

fn failure() -> ProviderError {
    ProviderError::Transport { context: "send".to_string(), detail: "connection refused".to_string() }
}

#[test]
fn enqueue_records_digest_of_exact_bytes() {
    let mut q = Queue::new();
    let en = q.enqueue(payload("abc")).unwrap();
    let rec = q.get(&en.job_id).unwrap();
    assert_eq!(rec.invoice_hash, "ba7816bf8f01cfea414140de5dae2223b00361a396177a9cb410ff61f20015ad");
    assert_eq!(rec.invoice_hash, compute_sha256_hex("abc"));
    assert_eq!(en.audit.event_type, "job_enqueued");
    assert_eq!(en.audit.invoice_hash.as_deref(), Some(rec.invoice_hash.as_str()));
    assert_eq!(en.audit.sender.as_deref(), Some("S1"));
    assert_eq!(en.audit.receiver.as_deref(), Some("R1"));
}

#[test]
fn digest_never_changes_through_transitions() {
    let mut q = Queue::new();
    let en = q.enqueue(payload(INVOICE)).unwrap();
    let hash = q.get(&en.job_id).unwrap().invoice_hash;
    q.update_state(&en.job_id, DispatchEvent::Started, 1).unwrap();
    q.update_state(&en.job_id, DispatchEvent::Submitted { transmission_id: "T1".to_string() }, 2).unwrap();
    let status = DeliveryStatus { transmission_id: "T1".to_string(), state: DeliveryState::Delivered, message: None };
    q.update_state(&en.job_id, DispatchEvent::Polled { status }, 3).unwrap();
    assert_eq!(q.get(&en.job_id).unwrap().invoice_hash, hash);
}

#[test]
fn transmission_id_absent_until_sent() {
    let mut q = Queue::new();
    let en = q.enqueue(payload(INVOICE)).unwrap();
    let rec = q.get(&en.job_id).unwrap();
    assert_eq!(rec.state, JobState::Queued);
    assert!(rec.transmission_id.is_none());
    let step = q.update_state(&en.job_id, DispatchEvent::Started, 10).unwrap();
    assert!(matches!(step.action, DispatchAction::Submit));
    assert!(step.audit.is_none());
    let rec = q.get(&en.job_id).unwrap();
    assert_eq!(rec.state, JobState::InFlight);
    assert!(rec.transmission_id.is_none());
    assert_eq!(rec.updated_at, 10);
    let step = q.update_state(&en.job_id, DispatchEvent::Submitted { transmission_id: "T9".to_string() }, 11).unwrap();
    match step.action {
        DispatchAction::PollStatus { transmission_id } => assert_eq!(transmission_id, "T9"),
        _ => panic!("expected a status poll"),
    }
    let audit = step.audit.unwrap();
    assert_eq!(audit.event_type, "invoice_submitted");
    assert_eq!(audit.state, "sent");
    assert_eq!(audit.transmission_id.as_deref(), Some("T9"));
    let rec = q.get(&en.job_id).unwrap();
    assert_eq!(rec.state, JobState::Sent);
    assert_eq!(rec.transmission_id.as_deref(), Some("T9"));
}

#[test]
fn terminal_job_accepts_no_further_event() {
    let mut q = Queue::new();
    let en = q.enqueue(payload(INVOICE)).unwrap();
    q.update_state(&en.job_id, DispatchEvent::Started, 1).unwrap();
    let step = q.update_state(&en.job_id, DispatchEvent::SubmitFailed { error: failure() }, 2).unwrap();
    assert!(matches!(step.action, DispatchAction::Done));
    assert_eq!(step.audit.unwrap().event_type, "submission_failed");
    let rec = q.get(&en.job_id).unwrap();
    assert_eq!(rec.state, JobState::Failed);
    assert_eq!(rec.last_error.as_deref(), Some("send: connection refused"));
    for event in [
        DispatchEvent::Started,
        DispatchEvent::Submitted { transmission_id: "T".to_string() },
        DispatchEvent::PollFailed { error: failure() },
    ] {
        match q.update_state(&en.job_id, event, 5) {
            Err(QueueError::InvalidTransition { state, .. }) => assert_eq!(state, JobState::Failed),
            _ => panic!("a failed job must stay failed"),
        }
    }
    let after = q.get(&en.job_id).unwrap();
    assert_eq!(after.state, JobState::Failed);
    assert_eq!(after.updated_at, 2);
}

#[test]
fn delivered_job_stays_delivered() {
    let mut q = Queue::new();
    let en = q.enqueue(payload(INVOICE)).unwrap();
    q.update_state(&en.job_id, DispatchEvent::Started, 1).unwrap();
    q.update_state(&en.job_id, DispatchEvent::Submitted { transmission_id: "T".to_string() }, 2).unwrap();
    let status = DeliveryStatus { transmission_id: "T".to_string(), state: DeliveryState::Delivered, message: None };
    q.update_state(&en.job_id, DispatchEvent::Polled { status: status.clone() }, 3).unwrap();
    assert!(q.update_state(&en.job_id, DispatchEvent::Polled { status }, 4).is_err());
    assert_eq!(q.get(&en.job_id).unwrap().state, JobState::Delivered);
}

#[test]
fn list_is_newest_first_and_new_job_comes_first() {
    let mut q = Queue::new();
    let a = q.enqueue(payload("first")).unwrap();
    let b = q.enqueue(payload("second")).unwrap();
    let listed = q.list();
    assert_eq!(listed.len(), 2);
    assert_eq!(listed[0].job_id, b.job_id);
    assert_eq!(listed[1].job_id, a.job_id);
    assert!(listed[0].created_at >= listed[1].created_at);
    let c = q.enqueue(payload("third")).unwrap();
    let listed = list_status(&q);
    assert_eq!(listed.len(), 3);
    assert_eq!(listed[0].job_id, c.job_id);
}

#[test]
fn failed_status_answer_records_backend_message() {
    let mut q = Queue::new();
    let en = q.enqueue(payload(INVOICE)).unwrap();
    q.update_state(&en.job_id, DispatchEvent::Started, 1).unwrap();
    q.update_state(&en.job_id, DispatchEvent::Submitted { transmission_id: "T".to_string() }, 2).unwrap();
    let status = DeliveryStatus {
        transmission_id: "T".to_string(),
        state: DeliveryState::Failed,
        message: Some("recipient rejected".to_string()),
    };
    let step = q.update_state(&en.job_id, DispatchEvent::Polled { status }, 3).unwrap();
    let audit = step.audit.unwrap();
    assert_eq!(audit.event_type, "delivery_status_updated");
    assert_eq!(audit.state, "failed");
    assert_eq!(audit.error.as_deref(), Some("recipient rejected"));
    let rec = q.get(&en.job_id).unwrap();
    assert_eq!(rec.state, JobState::Failed);
    assert_eq!(rec.last_error.as_deref(), Some("recipient rejected"));
}

#[test]
fn pending_answer_leaves_job_sent() {
    let mut q = Queue::new();
    let en = q.enqueue(payload(INVOICE)).unwrap();
    q.update_state(&en.job_id, DispatchEvent::Started, 1).unwrap();
    q.update_state(&en.job_id, DispatchEvent::Submitted { transmission_id: "T".to_string() }, 2).unwrap();
    let status = DeliveryStatus { transmission_id: "T".to_string(), state: DeliveryState::Pending, message: None };
    q.update_state(&en.job_id, DispatchEvent::Polled { status }, 3).unwrap();
    assert_eq!(q.get(&en.job_id).unwrap().state, JobState::Sent);
}

#[test]
fn status_query_error_fails_job() {
    let mut q = Queue::new();
    let en = q.enqueue(payload(INVOICE)).unwrap();
    q.update_state(&en.job_id, DispatchEvent::Started, 1).unwrap();
    q.update_state(&en.job_id, DispatchEvent::Submitted { transmission_id: "T".to_string() }, 2).unwrap();
    let step = q.update_state(&en.job_id, status_event(Err(failure())), 3).unwrap();
    let audit = step.audit.unwrap();
    assert_eq!(audit.event_type, "delivery_status_error");
    assert_eq!(audit.error.as_deref(), Some("send: connection refused"));
    let rec = q.get(&en.job_id).unwrap();
    assert_eq!(rec.state, JobState::Failed);
    assert_eq!(rec.last_error.as_deref(), Some("status error: send: connection refused"));
    assert_eq!(rec.transmission_id.as_deref(), Some("T"));
}

#[test]
fn simulator_job_ends_delivered() {
    let mut q = Queue::new();
    let en = enqueue_send_job(&mut q, INVOICE, "S1", "R1", "en16931").unwrap();
    assert!(!en.job_id.is_empty());
    assert_eq!(en.job_id.len(), 12);
    assert!(en.job_id.chars().all(|c| c.is_ascii_alphanumeric()));
    let p = q.payload(&en.job_id).unwrap();
    assert_eq!(p.sender, "S1");
    assert_eq!(p.receiver, "R1");
    assert_eq!(p.profile, "en16931");
    let mock = MockClient::new();
    q.update_state(&en.job_id, DispatchEvent::Started, 1).unwrap();
    let submitted = mock.submit(&p.xml, &p.sender, &p.receiver, &p.profile);
    let tid = submitted.clone().unwrap();
    assert_eq!(tid.len(), 16);
    let step = q.update_state(&en.job_id, submit_event(submitted), 2).unwrap();
    let polled = match step.action {
        DispatchAction::PollStatus { transmission_id } => mock.status(&transmission_id),
        _ => panic!("expected a status poll"),
    };
    q.update_state(&en.job_id, status_event(polled), 3).unwrap();
    let listed = q.list();
    assert_eq!(listed.len(), 1);
    assert_eq!(listed[0].job_id, en.job_id);
    assert_eq!(listed[0].state.as_str(), "delivered");
    assert_eq!(listed[0].transmission_id.as_deref(), Some(tid.as_str()));
}

#[test]
fn rest_backend_without_credentials_fails_job() {
    let mut cfg = AppConfig::default();
    cfg.provider.kind = "unifiedpost".to_string();
    cfg.provider.base_url = Some("https://ap.example".to_string());
    let client = match select_access_point(&cfg, None, None) {
        AccessPointClient::Unifiedpost(c) => c,
        _ => panic!("expected the REST backend"),
    };
    assert!(matches!(client.auth, UnifiedpostAuth::Unavailable));
    let mut q = Queue::new();
    let en = enqueue_send_job(&mut q, INVOICE, "S1", "R1", "en16931").unwrap();
    q.update_state(&en.job_id, DispatchEvent::Started, 1).unwrap();
    let err = client.get_auth_header().unwrap_err();
    assert!(matches!(err, ProviderError::Credentials { .. }));
    q.update_state(&en.job_id, submit_event(Err(err)), 2).unwrap();
    let rec = q.get(&en.job_id).unwrap();
    assert_eq!(rec.state.as_str(), "failed");
    assert!(rec.transmission_id.is_none());
    let last = rec.last_error.unwrap();
    assert!(last.contains("credential retrieval"), "{last}");
}

#[test]
fn updating_unknown_job_is_not_found_and_changes_nothing() {
    let mut q = Queue::new();
    let en = q.enqueue(payload(INVOICE)).unwrap();
    let before = q.list();
    match q.update_state("never-enqueued", DispatchEvent::Started, 7) {
        Err(e @ QueueError::NotFound { .. }) => assert_eq!(e.message(), "job not found: never-enqueued"),
        _ => panic!("expected not found"),
    }
    let after = q.list();
    assert_eq!(after.len(), before.len());
    assert_eq!(after[0].job_id, en.job_id);
    assert_eq!(after[0].state, JobState::Queued);
    assert_eq!(after[0].updated_at, before[0].updated_at);
    assert!(q.get("never-enqueued").is_none());
    assert!(q.payload("never-enqueued").is_none());
}

#[test]
fn queue_error_messages() {
    let e = QueueError::InvalidTransition { job_id: "J".to_string(), state: JobState::Delivered };
    assert_eq!(e.message(), "invalid transition for job J in state delivered");
    let e = QueueError::DuplicateId { job_id: "J".to_string() };
    assert_eq!(e.message(), "job already exists: J");
}

#[test]
fn restored_jobs_keep_their_records() {
    let mut q = Queue::new();
    let en = q.enqueue(payload("abc")).unwrap();
    let rec = q.get(&en.job_id).unwrap();
    let p = q.payload(&en.job_id).unwrap();
    let mut fresh = Queue::new();
    fresh.restore(rec.clone(), p.clone()).unwrap();
    assert_eq!(fresh.len(), 1);
    assert_eq!(fresh.get(&en.job_id).unwrap().invoice_hash, rec.invoice_hash);
    assert_eq!(fresh.payload(&en.job_id).unwrap().xml, "abc");
    match fresh.restore(rec, p) {
        Err(QueueError::DuplicateId { job_id }) => assert_eq!(job_id, en.job_id),
        _ => panic!("expected a duplicate id"),
    }
    assert_eq!(fresh.len(), 1);
}
