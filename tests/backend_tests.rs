use einvoice_delivery::delivery::{check_response, rest_state, rest_state_from_folded, DeliveryState, ProviderError};
use einvoice_delivery::div_service::{status_from_notifications, DivServiceClient, MessageStatus, Notification};
use einvoice_delivery::div_types::{compute_sha256_base64, DivEnvelope};
use einvoice_delivery::mock::MockClient;
use einvoice_delivery::unifiedpost::{AuthStep, UnifiedpostAuth, UnifiedpostClient};

const INVOICE: &str = r#"<Invoice xmlns:cbc="urn:cbc" xmlns:cac="urn:cac"><cbc:ID> INV-7 </cbc:ID><cbc:IssueDate>2024-02-01</cbc:IssueDate><cac:AccountingSupplierParty><cac:Party><cac:PartyName><cbc:Name>Acme &amp; Co</cbc:Name></cac:PartyName></cac:Party></cac:AccountingSupplierParty></Invoice>"#;

fn gateway() -> DivServiceClient {
    let c = DivServiceClient::new("https://div.example/UnifiedService.svc".to_string(), "AB12".to_string(), "123@div".to_string());
    (*c).clone()
}

#[test]
fn gateway_maps_all_seven_statuses() {
    assert_eq!(DivServiceClient::map_status(&MessageStatus::Accepted), DeliveryState::Delivered);
    assert_eq!(DivServiceClient::map_status(&MessageStatus::RecipientAccepted), DeliveryState::Delivered);
    assert_eq!(DivServiceClient::map_status(&MessageStatus::Rejected), DeliveryState::Failed);
    assert_eq!(DivServiceClient::map_status(&MessageStatus::RecipientRejected), DeliveryState::Failed);
    assert_eq!(DivServiceClient::map_status(&MessageStatus::New), DeliveryState::InFlight);
    assert_eq!(DivServiceClient::map_status(&MessageStatus::Sent), DeliveryState::InFlight);
    assert_eq!(DivServiceClient::map_status(&MessageStatus::DeliveryDelayed), DeliveryState::InFlight);
}

#[test]
fn gateway_status_codes_parse() {
    assert_eq!(MessageStatus::from_code("RecipientAccepted"), Some(MessageStatus::RecipientAccepted));
    assert_eq!(MessageStatus::from_code("DeliveryDelayed"), Some(MessageStatus::DeliveryDelayed));
    assert_eq!(MessageStatus::from_code("accepted"), None);
    assert_eq!(MessageStatus::Rejected.as_str(), "Rejected");
}

#[test]
fn rest_states_fold_case() {
    assert_eq!(rest_state("Delivered"), DeliveryState::Delivered);
    assert_eq!(rest_state("ACCEPTED"), DeliveryState::Delivered);
    assert_eq!(rest_state("failed"), DeliveryState::Failed);
    assert_eq!(rest_state("Rejected"), DeliveryState::Failed);
    assert_eq!(rest_state("in_transit"), DeliveryState::InFlight);
    assert_eq!(rest_state("sending"), DeliveryState::InFlight);
    assert_eq!(rest_state("unknown"), DeliveryState::Pending);
    assert_eq!(rest_state_from_folded("Delivered"), DeliveryState::Pending);
    assert_eq!(rest_state_from_folded("delivered"), DeliveryState::Delivered);
}

#[test]
fn status_queries_are_idempotent() {
    let mock = MockClient::new();
    assert_eq!(mock.status("T1").unwrap().state, mock.status("T1").unwrap().state);
    let rest = UnifiedpostClient::new("https://ap.example".to_string(), UnifiedpostAuth::ApiKey { key: "k".to_string() });
    let fields = || Some(("T1".to_string(), "Sending".to_string(), None));
    let a = rest.status_outcome(200, String::new(), fields()).unwrap();
    let b = rest.status_outcome(200, String::new(), fields()).unwrap();
    assert_eq!(a.state, DeliveryState::InFlight);
    assert_eq!(a.state, b.state);
    let gw = gateway();
    let body = "<Envelope><Body><Notifications><Notification><MessageId>ref-1</MessageId><MessageStatus>Accepted</MessageStatus></Notification></Notifications></Body></Envelope>";
    let first = gw.status_outcome("ref-1", 200, body.to_string()).unwrap();
    let second = gw.status_outcome("ref-1", 200, body.to_string()).unwrap();
    assert_eq!(first.state, DeliveryState::Delivered);
    assert_eq!(first.state, second.state);
}

#[test]
fn gateway_status_uses_latest_matching_notification() {
    let body = "<Envelope><Body><Notifications>\
        <Notification><MessageId>ref-1</MessageId><MessageStatus>Sent</MessageStatus></Notification>\
        <Notification><MessageId>ref-2</MessageId><MessageStatus>Accepted</MessageStatus></Notification>\
        <Notification><MessageId> ref-1 </MessageId><MessageStatus>RecipientRejected</MessageStatus></Notification>\
        </Notifications></Body></Envelope>";
    let s = gateway().status_outcome("ref-1", 200, body.to_string()).unwrap();
    assert_eq!(s.transmission_id, "ref-1");
    assert_eq!(s.state, DeliveryState::Failed);
    assert_eq!(s.message.as_deref(), Some("RecipientRejected"));
    let s = gateway().status_outcome("ref-3", 200, body.to_string()).unwrap();
    assert_eq!(s.state, DeliveryState::InFlight);
    assert_eq!(s.message.as_deref(), Some("no notification for this message yet"));
}

#[test]
fn gateway_status_errors() {
    match gateway().status_outcome("ref-1", 500, "boom".to_string()) {
        Err(ProviderError::Protocol { status, body, .. }) => {
            assert_eq!(status, 500);
            assert_eq!(body, "boom");
        },
        _ => panic!("expected a protocol error"),
    }
    assert!(matches!(gateway().status_outcome("ref-1", 200, "<unclosed".to_string()), Err(ProviderError::Parse { .. })));
    let notes = vec![Notification { message_id: Some("x".to_string()), message_status: None }];
    assert_eq!(status_from_notifications("x", &notes).state, DeliveryState::InFlight);
}

#[test]
fn gateway_soap_bodies() {
    let gw = gateway();
    let body = gw.build_soap_envelope("<Envelope/>");
    assert!(body.starts_with("<?xml version=\"1.0\" encoding=\"utf-8\"?>\n<s:Envelope"));
    assert!(body.contains("UnifiedServiceInterface/SendMessage</a:Action>"));
    assert!(body.contains("<a:To s:mustUnderstand=\"1\">https://div.example/UnifiedService.svc</a:To>"));
    assert!(body.contains("\n            <Envelope/>\n        </SendMessageInput>"));
    let list = gw.build_notification_list_soap(100);
    assert!(list.contains("<MaxResultCount>100</MaxResultCount>"));
    assert!(list.contains("UnifiedServiceInterface/GetNotificationList</a:Action>"));
    assert!(gw.build_notification_list_soap(-5).contains("<MaxResultCount>-5</MaxResultCount>"));
    let headers = gw.get_auth_headers();
    assert_eq!(headers[0], ("Content-Type", "application/soap+xml; charset=utf-8".to_string()));
    assert_eq!(headers[1].0, "SOAPAction");
    assert!(gw.notification_headers()[1].1.ends_with("GetNotificationList"));
}

#[test]
fn gateway_envelope_for_invoice() {
    let gw = gateway();
    let env = gw.build_div_envelope(INVOICE, "999@div", "Acme & Co").unwrap();
    let general = &env.sender_document.document_metadata.general_metadata;
    assert_eq!(general.title, "E-invoice: INV-7");
    assert_eq!(general.date, "2024-02-01");
    let file = &env.sender_document.document_metadata.payload_reference.as_ref().unwrap().file[0];
    assert_eq!(file.size, INVOICE.len() as u64);
    assert_eq!(file.content.digest_value, compute_sha256_base64(INVOICE.as_bytes()));
    let transport = &env.sender_document.sender_transport_metadata;
    assert!(transport.sender_ref_number.starts_with("ref-"));
    assert_eq!(transport.sender_ref_number.len(), 40);
    assert_eq!(transport.sender_e_address, "123@div");
    assert!(gw.build_div_envelope("<Invoice", "999@div", "x").is_err());
}

#[test]
fn gateway_submission_request() {
    let gw = gateway();
    let req = gw.prepare_submission(INVOICE, "999@div").unwrap();
    assert!(req.message_id.starts_with("ref-"));
    assert!(req.body.contains(&format!("<SenderRefNumber>{}</SenderRefNumber>", req.message_id)));
    assert!(req.body.contains("<Title>Acme & Co</Title>"));
    assert!(req.body.contains("<RecipientE-Address>999@div</RecipientE-Address>"));
    assert_eq!(gw.submit_outcome(req.message_id.clone(), 200, String::new()).unwrap(), req.message_id);
    let err = gw.submit_outcome(req.message_id.clone(), 503, "down".to_string()).unwrap_err();
    assert_eq!(err.message(), "DIV UnifiedService submit failed: 503 - down");
    let bare = "<Invoice><ID>1</ID></Invoice>";
    let req = gw.prepare_submission(bare, "999@div").unwrap();
    assert!(req.body.contains("<Title>E-Invoice Sender</Title>"));
}

#[test]
fn envelope_xml_form() {
    let env = DivEnvelope::new(
        "T".to_string(), "2024-01-01".to_string(), "S@x".to_string(), "ref-1".to_string(), "R@x".to_string(),
        "Org".to_string(), "invoice.xml".to_string(), "application/xml".to_string(), 1234, "ZGln".to_string(),
    );
    let xml = env.to_xml();
    assert!(xml.starts_with("<Envelope xmlns=\"http://ivis.eps.gov.lv/XMLSchemas/100001/DIV/v1-0\">"));
    assert!(xml.contains("<Title>T</Title>\n        <Date>2024-01-01</Date>"));
    assert!(xml.contains("<Size>1234</Size>"));
    assert!(xml.contains("<DigestValue>ZGln</DigestValue>"));
    assert!(xml.contains("<ContentReference>cid:invoice-content</ContentReference>"));
    assert!(xml.contains("<NotifySenderOnDelivery>true</NotifySenderOnDelivery>\n      <Priority>normal</Priority>"));
    assert!(xml.ends_with("</SenderDocument>\n</Envelope>"));
    let kind = &env.sender_document.document_metadata.general_metadata.document_kind;
    assert_eq!(kind.document_kind_code, "EINVOICE");
    assert_eq!(kind.document_kind_version, "1.0");
}

#[test]
fn sha256_base64_digest() {
    assert_eq!(compute_sha256_base64(b"abc"), "ungWv48Bz+pBQUDeXa4iI7ADYaOWF3qctBD/YfIAFa0=");
}

#[test]
fn mock_backend_answers() {
    let mock = MockClient::new();
    let id = mock.submit("<x/>", "S1", "R1", "p").unwrap();
    assert_eq!(id.len(), 16);
    assert!(id.chars().all(|c| c.is_ascii_alphanumeric()));
    let s = mock.status("T42").unwrap();
    assert_eq!(s.transmission_id, "T42");
    assert_eq!(s.state, DeliveryState::Delivered);
    assert_eq!(s.message.as_deref(), Some("Mock delivered"));
}

#[test]
fn rest_authentication_steps() {
    let key = UnifiedpostClient::new("https://ap".to_string(), UnifiedpostAuth::ApiKey { key: "K1".to_string() });
    match key.get_auth_header().unwrap() {
        AuthStep::Ready { header } => assert_eq!(header, "Bearer K1"),
        _ => panic!("expected a header"),
    }
    let mut oauth = UnifiedpostClient::new(
        "https://ap".to_string(),
        UnifiedpostAuth::OAuth2 { client_id: "id".to_string(), client_secret: "sec".to_string(), token_url: "https://ap/oauth/token".to_string() },
    );
    match oauth.get_auth_header().unwrap() {
        AuthStep::FetchToken { token_url, client_id, client_secret } => {
            assert_eq!(token_url, "https://ap/oauth/token");
            assert_eq!(client_id, "id");
            assert_eq!(client_secret, "sec");
        },
        _ => panic!("expected a token request"),
    }
    assert!(matches!(oauth.accept_token(401, "no".to_string(), None), Err(ProviderError::Protocol { .. })));
    assert!(oauth.access_token.is_none());
    assert!(matches!(oauth.accept_token(200, "{}".to_string(), None), Err(ProviderError::Parse { .. })));
    assert_eq!(oauth.accept_token(200, String::new(), Some("TOK".to_string())).unwrap(), "Bearer TOK");
    match oauth.get_auth_header().unwrap() {
        AuthStep::Ready { header } => assert_eq!(header, "Bearer TOK"),
        _ => panic!("expected the cached token"),
    }
    let none = UnifiedpostClient::new("https://ap".to_string(), UnifiedpostAuth::Unavailable);
    let err = none.get_auth_header().unwrap_err();
    assert_eq!(err.message(), "credential retrieval failed: no API key or OAuth2 client secret is available");
}

#[test]
fn rest_urls_and_outcomes() {
    let c = UnifiedpostClient::new("https://ap.example".to_string(), UnifiedpostAuth::ApiKey { key: "k".to_string() });
    assert_eq!(c.submit_url(), "https://ap.example/api/v1/peppol/send");
    assert_eq!(c.status_url("T 1"), "https://ap.example/api/v1/peppol/status/T 1");
    assert_eq!(c.submit_outcome(201, String::new(), Some("T1".to_string())).unwrap(), "T1");
    assert!(matches!(c.submit_outcome(200, String::new(), None), Err(ProviderError::Parse { .. })));
    let err = c.submit_outcome(400, "bad".to_string(), None).unwrap_err();
    assert_eq!(err.message(), "Unifiedpost submit failed: 400 - bad");
    let s = c.status_outcome(200, String::new(), Some(("T1".to_string(), "REJECTED".to_string(), Some("why".to_string())))).unwrap();
    assert_eq!(s.transmission_id, "T1");
    assert_eq!(s.state, DeliveryState::Failed);
    assert_eq!(s.message.as_deref(), Some("why"));
    assert!(matches!(c.status_outcome(404, "gone".to_string(), None), Err(ProviderError::Protocol { status: 404, .. })));
}

#[test]
fn response_status_classes() {
    assert_eq!(check_response("x", 299, "b".to_string()).unwrap(), "b");
    assert!(check_response("x", 199, "b".to_string()).is_err());
    assert!(check_response("x", 300, "b".to_string()).is_err());
    let e = ProviderError::Parse { context: "ctx".to_string(), detail: "d".to_string() };
    assert_eq!(e.message(), "ctx: d");
}
