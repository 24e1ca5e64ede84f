use einvoice_delivery::audit::{audit_log_path, AuditEvent};
use einvoice_delivery::commands::{
    apply_settings, connection_test, is_invoice_file_name, job_status, settings_of, validation_result, Settings,
};
use einvoice_delivery::config::{default_provider_kind, select_access_point, AccessPointClient, AppConfig};
use einvoice_delivery::parsing::{compute_sha256_hex, invoice_from_nodes, parse_ubl_invoice};
use einvoice_delivery::queue::Queue;
use einvoice_delivery::text::{contains_text, i32_to_decimal, text_eq, u64_to_decimal};
use einvoice_delivery::unifiedpost::UnifiedpostAuth;
use einvoice_delivery::validation::{basic_en16931_checks, validate};
use einvoice_delivery::xml::{find_element, get_text_at_path, parse_xml};

const FULL: &str = r#"<?xml version="1.0" encoding="UTF-8"?>
<Invoice xmlns:cbc="urn:cbc" xmlns:cac="urn:cac">
  <cbc:ID>INV-001</cbc:ID>
  <cbc:IssueDate>2024-01-15</cbc:IssueDate>
  <cbc:DueDate>2024-02-15</cbc:DueDate>
  <cbc:DocumentCurrencyCode>EUR</cbc:DocumentCurrencyCode>
  <cac:AccountingSupplierParty><cac:Party>
    <cbc:EndpointID>LV123</cbc:EndpointID>
    <cac:PartyLegalEntity><cbc:RegistrationName>Seller SIA</cbc:RegistrationName></cac:PartyLegalEntity>
  </cac:Party></cac:AccountingSupplierParty>
  <cac:AccountingCustomerParty><cac:Party><cac:PartyName><cbc:Name>  Buyer AS  </cbc:Name></cac:PartyName></cac:Party></cac:AccountingCustomerParty>
  <cac:TaxTotal><cbc:TaxAmount>21.00</cbc:TaxAmount></cac:TaxTotal>
  <cac:LegalMonetaryTotal><cbc:PayableAmount>121.00</cbc:PayableAmount></cac:LegalMonetaryTotal>
</Invoice>"#;

#[test]
fn invoice_fields_are_extracted() {
    let inv = parse_ubl_invoice(FULL).unwrap();
    assert_eq!(inv.invoice_number, "INV-001");
    assert_eq!(inv.issue_date, "2024-01-15");
    assert_eq!(inv.due_date.as_deref(), Some("2024-02-15"));
    assert_eq!(inv.currency_code, "EUR");
    assert_eq!(inv.supplier_name, "Seller SIA");
    assert_eq!(inv.supplier_id.as_deref(), Some("LV123"));
    assert_eq!(inv.customer_name, "Buyer AS");
    assert_eq!(inv.customer_id, None);
    assert_eq!(inv.tax_total.as_deref(), Some("21.00"));
    assert_eq!(inv.payable_amount.as_deref(), Some("121.00"));
}

#[test]
fn missing_fields_read_defaults() {
    let inv = parse_ubl_invoice("<Invoice><Note>x</Note></Invoice>").unwrap();
    assert_eq!(inv.invoice_number, "UNKNOWN");
    assert_eq!(inv.issue_date, "");
    assert_eq!(inv.supplier_name, "");
    assert!(inv.payable_amount.is_none());
    assert!(parse_ubl_invoice("<Invoice>").is_err());
    let inv = invoice_from_nodes(&Vec::new());
    assert_eq!(inv.invoice_number, "UNKNOWN");
}

#[test]
fn element_paths_follow_children_only() {
    let nodes = parse_xml("<a><b><c>deep</c></b><c>  </c><d><c>other</c></d></a>").unwrap();
    assert_eq!(nodes[0].name, "a");
    assert_eq!(find_element(&nodes, &[]), Some(0));
    assert_eq!(get_text_at_path(&nodes, &["b", "c"]).as_deref(), Some("deep"));
    assert_eq!(get_text_at_path(&nodes, &["c"]), None);
    assert_eq!(get_text_at_path(&nodes, &["d", "c"]).as_deref(), Some("other"));
    assert_eq!(find_element(&nodes, &["x"]), None);
}

#[test]
fn complete_invoice_passes_checks() {
    assert_eq!(basic_en16931_checks(FULL), Ok(()));
    assert_eq!(validate(FULL), Ok(()));
}

#[test]
fn missing_root_is_reported_alone() {
    assert_eq!(basic_en16931_checks("<CreditNote/>"), Err(vec!["Missing UBL Invoice root element".to_string()]));
}

#[test]
fn malformed_invoice_is_reported() {
    let errs = validate("<Invoice><ID>1</Invoice>").unwrap_err();
    assert_eq!(errs.len(), 1);
    assert!(errs[0].starts_with("Failed to parse UBL: "), "{}", errs[0]);
}

#[test]
fn every_missing_field_is_reported() {
    let errs = basic_en16931_checks("<invoice><DocumentCurrencyCode>EURO</DocumentCurrencyCode></invoice>").unwrap_err();
    assert_eq!(errs, vec![
        "BT-1: Invoice number is mandatory".to_string(),
        "BT-2: Issue date is mandatory".to_string(),
        "BT-5: Currency code must be 3 characters (ISO 4217)".to_string(),
        "BG-4: Seller name is mandatory".to_string(),
        "BG-7: Buyer name is mandatory".to_string(),
        "BT-115: Payable amount should be present".to_string(),
    ]);
    let errs = basic_en16931_checks("<Invoice><ID>7</ID></Invoice>").unwrap_err();
    assert_eq!(errs[0], "BT-2: Issue date is mandatory");
    assert_eq!(errs[1], "BT-5: Currency code is mandatory");
}

#[test]
fn validation_rows() {
    let ok = validation_result("a.xml".to_string(), Ok(()));
    assert!(ok.valid && ok.errors.is_empty());
    let bad = validation_result("b.xml".to_string(), Err(vec!["e".to_string()]));
    assert!(!bad.valid);
    assert_eq!(bad.errors, vec!["e".to_string()]);
    assert_eq!(bad.path, "b.xml");
}

#[test]
fn hex_digest_of_text() {
    assert_eq!(compute_sha256_hex(""), "e3b0c44298fc1c149afbf4c8996fb92427ae41e4649b934ca495991b7852b855");
    assert_eq!(compute_sha256_hex("é").len(), 64);
}

#[test]
fn text_helpers() {
    assert_eq!(u64_to_decimal(0), "0");
    assert_eq!(u64_to_decimal(18446744073709551615), "18446744073709551615");
    assert_eq!(i32_to_decimal(-2147483648), "-2147483648");
    assert_eq!(i32_to_decimal(42), "42");
    assert!(text_eq("ä", "ä"));
    assert!(!text_eq("a", "ab"));
    assert!(contains_text("xx<Invoice", "<Invoice"));
    assert!(contains_text("abc", ""));
    assert!(!contains_text("ab", "abc"));
}

#[test]
fn audit_event_builders() {
    let e = AuditEvent::new("job_enqueued", "J1", "queued")
        .with_hash("h".to_string())
        .with_transmission_id("t".to_string())
        .with_error("e".to_string())
        .with_parties("s".to_string(), "r".to_string());
    assert_eq!(e.event_type, "job_enqueued");
    assert_eq!(e.job_id, "J1");
    assert_eq!(e.state, "queued");
    assert_eq!(e.invoice_hash.as_deref(), Some("h"));
    assert_eq!(e.transmission_id.as_deref(), Some("t"));
    assert_eq!(e.error.as_deref(), Some("e"));
    assert_eq!(e.sender.as_deref(), Some("s"));
    assert_eq!(e.receiver.as_deref(), Some("r"));
    assert!(e.timestamp > 1_600_000_000_000);
    assert_eq!(audit_log_path(), "audit.jsonl");
}

#[test]
fn default_settings_use_simulator() {
    let cfg = AppConfig::default();
    assert_eq!(cfg.provider.kind, "mock");
    assert_eq!(default_provider_kind(), "mock");
    assert!(matches!(select_access_point(&cfg, Some("k".to_string()), None), AccessPointClient::Mock(_)));
}

#[test]
fn backend_selection() {
    let mut cfg = AppConfig::default();
    cfg.provider.kind = "div".to_string();
    cfg.provider.base_url = Some("https://div".to_string());
    cfg.certificate.thumbprint = Some("AB".to_string());
    assert!(matches!(select_access_point(&cfg, None, None), AccessPointClient::Mock(_)));
    cfg.sender.from_eadrese = Some("1@div".to_string());
    match select_access_point(&cfg, None, None) {
        AccessPointClient::Div(c) => assert_eq!(c.sender_eaddress, "1@div"),
        _ => panic!("expected the gateway"),
    }
    cfg.provider.kind = "unifiedpost".to_string();
    match select_access_point(&cfg, Some("KEY".to_string()), Some("S".to_string())) {
        AccessPointClient::Unifiedpost(c) => assert!(matches!(c.auth, UnifiedpostAuth::ApiKey { ref key } if key == "KEY")),
        _ => panic!("expected the REST backend"),
    }
    cfg.provider.client_id = Some("cid".to_string());
    match select_access_point(&cfg, None, Some("S".to_string())) {
        AccessPointClient::Unifiedpost(c) => match c.auth {
            UnifiedpostAuth::OAuth2 { client_id, client_secret, token_url } => {
                assert_eq!(client_id, "cid");
                assert_eq!(client_secret, "S");
                assert_eq!(token_url, "https://div/oauth/token");
            },
            _ => panic!("expected OAuth2"),
        },
        _ => panic!("expected the REST backend"),
    }
    cfg.provider.base_url = Some(String::new());
    assert!(matches!(select_access_point(&cfg, None, None), AccessPointClient::Mock(_)));
}

#[test]
fn connection_checks() {
    let mut cfg = AppConfig::default();
    let r = connection_test(&cfg, false, false);
    assert!(r.success);
    assert_eq!(r.message, "Mock provider is always available (no actual connection)");
    cfg.provider.kind = "div".to_string();
    assert_eq!(connection_test(&cfg, false, false).message, "Service address is required");
    cfg.provider.base_url = Some("https://x".to_string());
    assert_eq!(connection_test(&cfg, false, false).message, "Certificate thumbprint is required");
    cfg.certificate.thumbprint = Some("T".to_string());
    assert_eq!(connection_test(&cfg, false, false).message, "Sender e-adrese is required");
    cfg.sender.from_eadrese = Some("a@b".to_string());
    assert!(connection_test(&cfg, false, false).success);
    cfg.provider.kind = "unifiedpost".to_string();
    let r = connection_test(&cfg, false, true);
    assert!(!r.success);
    assert!(r.message.starts_with("Authentication credentials required."));
    assert_eq!(connection_test(&cfg, true, false).message, "Configuration validated with API key authentication");
    cfg.provider.client_id = Some("id".to_string());
    assert_eq!(connection_test(&cfg, false, true).message, "Configuration validated with OAuth2 authentication");
    cfg.provider.kind = "fax".to_string();
    let r = connection_test(&cfg, true, true);
    assert!(!r.success);
    assert_eq!(r.message, "Unknown provider type: fax");
}

#[test]
fn settings_round_trip() {
    let mut cfg = AppConfig::default();
    cfg.provider.client_id = Some("cid".to_string());
    let s = Settings {
        provider_kind: None,
        certificate_thumbprint: Some("T".to_string()),
        unifiedpost_address: Some("https://ap".to_string()),
        from_title: Some("Me".to_string()),
        from_eadrese: None,
    };
    apply_settings(&mut cfg, s);
    assert_eq!(cfg.provider.kind, "mock");
    assert_eq!(cfg.provider.client_id.as_deref(), Some("cid"));
    let back = settings_of(&cfg);
    assert_eq!(back.provider_kind.as_deref(), Some("mock"));
    assert_eq!(back.certificate_thumbprint.as_deref(), Some("T"));
    assert_eq!(back.unifiedpost_address.as_deref(), Some("https://ap"));
    assert_eq!(back.from_title.as_deref(), Some("Me"));
    assert!(back.from_eadrese.is_none());
}

#[test]
fn job_status_rows() {
    let mut q = Queue::new();
    let en = q.enqueue(einvoice_delivery::queue::JobPayload {
        xml: "<Invoice/>".to_string(),
        sender: "S".to_string(),
        receiver: "R".to_string(),
        profile: "p".to_string(),
    }).unwrap();
    let mut rec = q.get(&en.job_id).unwrap();
    rec.updated_at = 947638923004;
    let row = job_status(&rec);
    assert_eq!(row.job_id, en.job_id);
    assert_eq!(row.state, "queued");
    assert_eq!(row.updated_at, "2000-01-12T01:02:03.004+00:00");
    assert!(row.transmission_id.is_none());
}

#[test]
fn invoice_file_names() {
    assert!(is_invoice_file_name("a.xml"));
    assert!(is_invoice_file_name("Invoice-7.XmL"));
    assert!(is_invoice_file_name("..xml"));
    assert!(!is_invoice_file_name(".xml"));
    assert!(!is_invoice_file_name("a.xml.bak"));
    assert!(!is_invoice_file_name("axml"));
    assert!(!is_invoice_file_name("a.xsl"));
}
