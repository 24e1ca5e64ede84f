//! The government postal gateway backend: SOAP request bodies with
//! WS-Addressing headers, the document envelope around an invoice, and the
//! mapping of the gateway's message statuses onto delivery states.
//!
//! Sending the requests is left to the caller, which hands the gateway's
//! answers back to `submit_outcome` and `status_outcome`.

use vstd::prelude::*;
use std::sync::Arc;
use crate::boundary::{base64_of, random_uuid, sha256_of};
use crate::delivery::{check_response, is_success_status, DeliveryState, DeliveryStatus, ProviderError};
use crate::div_types::{compute_sha256_base64, envelope_xml, DivEnvelope};
use crate::parsing::{or_default, party_name, parse_ubl_invoice};
use crate::text::{i32_to_decimal, opt_view, signed_decimal, text_eq};
use crate::xml::{child_text, get_child_text, parse_xml, text_at, xml_nodes_of, XmlNode};

verus! {

/// The gateway's status of a message.
#[derive(Clone, Copy, Debug, PartialEq, Eq, Structural)]
pub enum MessageStatus {
    New,
    Sent,
    Rejected,
    Accepted,
    DeliveryDelayed,
    RecipientAccepted,
    RecipientRejected,
}

/// The delivery state a gateway message status collapses onto.
pub open spec fn gateway_state(s: MessageStatus) -> DeliveryState {
    match s {
        MessageStatus::New | MessageStatus::Sent | MessageStatus::DeliveryDelayed => DeliveryState::InFlight,
        MessageStatus::Accepted | MessageStatus::RecipientAccepted => DeliveryState::Delivered,
        MessageStatus::Rejected | MessageStatus::RecipientRejected => DeliveryState::Failed,
    }
}

/// The message status a gateway status code names.
pub open spec fn status_code(code: Seq<char>) -> Option<MessageStatus> {
    if code == "New"@ {
        Some(MessageStatus::New)
    } else if code == "Sent"@ {
        Some(MessageStatus::Sent)
    } else if code == "Rejected"@ {
        Some(MessageStatus::Rejected)
    } else if code == "Accepted"@ {
        Some(MessageStatus::Accepted)
    } else if code == "DeliveryDelayed"@ {
        Some(MessageStatus::DeliveryDelayed)
    } else if code == "RecipientAccepted"@ {
        Some(MessageStatus::RecipientAccepted)
    } else if code == "RecipientRejected"@ {
        Some(MessageStatus::RecipientRejected)
    } else {
        None
    }
}

impl MessageStatus {
    /// The message status named by a gateway status code.
    pub fn from_code(code: &str) -> (r: Option<MessageStatus>)
        ensures
            r == status_code(code@),
    {
        if text_eq(code, "New") {
            Some(MessageStatus::New)
        } else if text_eq(code, "Sent") {
            Some(MessageStatus::Sent)
        } else if text_eq(code, "Rejected") {
            Some(MessageStatus::Rejected)
        } else if text_eq(code, "Accepted") {
            Some(MessageStatus::Accepted)
        } else if text_eq(code, "DeliveryDelayed") {
            Some(MessageStatus::DeliveryDelayed)
        } else if text_eq(code, "RecipientAccepted") {
            Some(MessageStatus::RecipientAccepted)
        } else if text_eq(code, "RecipientRejected") {
            Some(MessageStatus::RecipientRejected)
        } else {
            None
        }
    }
}

/// One entry of the gateway's notification list.
#[derive(Clone, Debug)]
pub struct Notification {
    pub message_id: Option<String>,
    pub message_status: Option<MessageStatus>,
}

/// The SOAP body that sends `envelope` to the gateway at `base_url`.
pub open spec fn send_message_soap(base_url: Seq<char>, envelope: Seq<char>) -> Seq<char> {
    "<?xml version=\"1.0\" encoding=\"utf-8\"?>\n<s:Envelope xmlns:s=\"http://schemas.xmlsoap.org/soap/envelope/\" xmlns:a=\"http://www.w3.org/2005/08/addressing\">\n    <s:Header>\n        <a:Action s:mustUnderstand=\"1\">http://vraa.gov.lv/div/uui/2011/11/UnifiedServiceInterface/SendMessage</a:Action>\n        <a:To s:mustUnderstand=\"1\">"@ + base_url + "</a:To>\n    </s:Header>\n    <s:Body xmlns:xsi=\"http://www.w3.org/2001/XMLSchema-instance\" xmlns:xsd=\"http://www.w3.org/2001/XMLSchema\">\n        <SendMessageInput xmlns=\"http://vraa.gov.lv/xmlschemas/div/uui/2011/11\">\n            "@ + envelope + "\n        </SendMessageInput>\n    </s:Body>\n</s:Envelope>"@
}

/// The SOAP body that asks the gateway at `base_url` for up to `max` notifications.
pub open spec fn notification_list_soap(base_url: Seq<char>, max: Seq<char>) -> Seq<char> {
    "<?xml version=\"1.0\" encoding=\"utf-8\"?>\n<s:Envelope xmlns:s=\"http://schemas.xmlsoap.org/soap/envelope/\" xmlns:a=\"http://www.w3.org/2005/08/addressing\">\n    <s:Header>\n        <a:Action s:mustUnderstand=\"1\">http://vraa.gov.lv/div/uui/2011/11/UnifiedServiceInterface/GetNotificationList</a:Action>\n        <a:To s:mustUnderstand=\"1\">"@ + base_url + "</a:To>\n    </s:Header>\n    <s:Body xmlns:xsi=\"http://www.w3.org/2001/XMLSchema-instance\" xmlns:xsd=\"http://www.w3.org/2001/XMLSchema\">\n        <GetNotificationListInput xmlns=\"http://vraa.gov.lv/xmlschemas/div/uui/2011/11\">\n            <MaxResultCount>"@ + max + "</MaxResultCount>\n        </GetNotificationListInput>\n    </s:Body>\n</s:Envelope>"@
}


/// A notification as plain values.
pub struct NotificationView {
    pub message_id: Option<Seq<char>>,
    pub message_status: Option<MessageStatus>,
}

pub open spec fn notification_view(n: Notification) -> NotificationView {
    NotificationView { message_id: opt_view(n.message_id), message_status: n.message_status }
}

pub open spec fn notification_views(v: Seq<Notification>) -> Seq<NotificationView> {
    v.map_values(|n: Notification| notification_view(n))
}

/// The notification that the `Notification` element at node `j` describes.
pub open spec fn notification_at(nodes: Seq<XmlNode>, j: int) -> NotificationView {
    NotificationView {
        message_id: child_text(nodes, nodes[j].id, "MessageId"@),
        message_status: match child_text(nodes, nodes[j].id, "MessageStatus"@) {
            Some(c) => status_code(c),
            None => None,
        },
    }
}

/// The notifications that the nodes from position `j` on describe, one
/// for each `Notification` element, in document order.
pub open spec fn notifications_from(nodes: Seq<XmlNode>, j: int) -> Seq<NotificationView>
    decreases nodes.len() - j,
{
    if j < 0 || j >= nodes.len() {
        Seq::empty()
    } else if nodes[j].is_element && nodes[j].name@ == "Notification"@ {
        seq![notification_at(nodes, j)] + notifications_from(nodes, j + 1)
    } else {
        notifications_from(nodes, j + 1)
    }
}

/// The status of the last notification about message `id` that carries one.
pub open spec fn last_status_for(id: Seq<char>, notes: Seq<NotificationView>) -> Option<MessageStatus>
    decreases notes.len(),
{
    if notes.len() == 0 {
        None
    } else if notes.last().message_id == Some(id) && notes.last().message_status is Some {
        notes.last().message_status
    } else {
        last_status_for(id, notes.drop_last())
    }
}

/// The delivery state of message `id` according to a notification list:
/// its latest status, or in flight where the list says nothing of it.
pub open spec fn gateway_delivery_state(id: Seq<char>, notes: Seq<NotificationView>) -> DeliveryState {
    match last_status_for(id, notes) {
        Some(s) => gateway_state(s),
        None => DeliveryState::InFlight,
    }
}

/// The name of a gateway message status.
pub open spec fn status_name(s: MessageStatus) -> Seq<char> {
    match s {
        MessageStatus::New => "New"@,
        MessageStatus::Sent => "Sent"@,
        MessageStatus::Rejected => "Rejected"@,
        MessageStatus::Accepted => "Accepted"@,
        MessageStatus::DeliveryDelayed => "DeliveryDelayed"@,
        MessageStatus::RecipientAccepted => "RecipientAccepted"@,
        MessageStatus::RecipientRejected => "RecipientRejected"@,
    }
}

impl MessageStatus {
    /// The status's name, as the gateway writes it.
    pub fn as_str(&self) -> (r: &'static str)
        ensures
            r@ == status_name(*self),
    {
        match self {
            MessageStatus::New => "New",
            MessageStatus::Sent => "Sent",
            MessageStatus::Rejected => "Rejected",
            MessageStatus::Accepted => "Accepted",
            MessageStatus::DeliveryDelayed => "DeliveryDelayed",
            MessageStatus::RecipientAccepted => "RecipientAccepted",
            MessageStatus::RecipientRejected => "RecipientRejected",
        }
    }
}

/// The notifications in a parsed notification-list response.
pub fn notifications_from_nodes(nodes: &Vec<XmlNode>) -> (r: Vec<Notification>)
    ensures
        notification_views(r@) == notifications_from(nodes@, 0),
{
    let mut out: Vec<Notification> = Vec::new();
    let mut j: usize = 0;
    while j < nodes.len()
        invariant
            0 <= j <= nodes.len(),
            notification_views(out@) + notifications_from(nodes@, j as int) == notifications_from(nodes@, 0),
        decreases nodes.len() - j,
    {
        let n = &nodes[j];
        if n.is_element && text_eq(n.name.as_str(), "Notification") {
            let message_id = get_child_text(nodes, n.id, "MessageId");
            let message_status = match get_child_text(nodes, n.id, "MessageStatus") {
                Some(code) => MessageStatus::from_code(code.as_str()),
                None => None,
            };
            let note = Notification { message_id, message_status };
            let ghost before = out@;
            out.push(note);
            proof {
                assert(notification_view(note) == notification_at(nodes@, j as int));
                assert(notification_views(out@) =~= notification_views(before).push(notification_at(nodes@, j as int)));
                assert(notifications_from(nodes@, j as int) == seq![notification_at(nodes@, j as int)] + notifications_from(nodes@, j + 1));
                assert(notification_views(out@) + notifications_from(nodes@, j + 1) =~= notification_views(before) + notifications_from(nodes@, j as int));
            }
        }
        j = j + 1;
    }
    proof {
        assert(notification_views(out@) =~= notification_views(out@) + notifications_from(nodes@, j as int));
    }
    out
}

/// The text stored with a status answer: the gateway's status name, or a
/// note that the list does not mention the message yet.
pub open spec fn gateway_status_message(id: Seq<char>, notes: Seq<NotificationView>) -> Seq<char> {
    match last_status_for(id, notes) {
        Some(s) => status_name(s),
        None => "no notification for this message yet"@,
    }
}

/// The delivery status of message `message_id` according to a
/// notification list.
pub fn status_from_notifications(message_id: &str, notes: &Vec<Notification>) -> (r: DeliveryStatus)
    ensures
        r.transmission_id@ == message_id@,
        r.state == gateway_delivery_state(message_id@, notification_views(notes@)),
        opt_view(r.message) == Some(gateway_status_message(message_id@, notification_views(notes@))),
{
    let ghost views = notification_views(notes@);
    let mut i: usize = notes.len();
    proof {
        assert(views.take(i as int) =~= views);
    }
    while i > 0
        invariant
            0 <= i <= notes.len(),
            views == notification_views(notes@),
            last_status_for(message_id@, views.take(i as int)) == last_status_for(message_id@, views),
        decreases i,
    {
        let n = &notes[i - 1];
        proof {
            assert(views.take(i as int).last() == notification_view(*n));
            assert(views.take(i as int).drop_last() =~= views.take(i - 1));
        }
        let matched = match &n.message_id {
            Some(m) => text_eq(m.as_str(), message_id),
            None => false,
        };
        if matched {
            match n.message_status {
                Some(s) => {
                    return DeliveryStatus {
                        transmission_id: message_id.to_owned(),
                        state: DivServiceClient::map_status(&s),
                        message: Some(String::from_str(s.as_str())),
                    };
                },
                None => {},
            }
        }
        i = i - 1;
    }
    proof {
        assert(views.take(0) =~= Seq::<NotificationView>::empty());
    }
    DeliveryStatus {
        transmission_id: message_id.to_owned(),
        state: DeliveryState::InFlight,
        message: Some(String::from_str("no notification for this message yet")),
    }
}

/// The outcome of a notification-list query, from the gateway's answer.
pub open spec fn gateway_status_outcome(id: Seq<char>, http_status: u16, body: Seq<char>) -> Option<DeliveryState> {
    if !is_success_status(http_status) {
        None
    } else {
        match xml_nodes_of(body) {
            Some(nodes) => Some(gateway_delivery_state(id, notifications_from(nodes, 0))),
            None => None,
        }
    }
}

/// A request to send to the gateway.
#[derive(Clone, Debug)]
pub struct SoapRequest {
    /// The reference under which the message is tracked.
    pub message_id: String,
    pub headers: Vec<(&'static str, String)>,
    pub body: String,
}

/// The gateway backend's configuration.
#[derive(Clone, Debug)]
pub struct DivServiceClient {
    /// The full URL of the gateway's service endpoint.
    pub base_url: String,
    /// The thumbprint of the client certificate used beneath this layer.
    pub cert_thumbprint: String,
    /// The sender's electronic address.
    pub sender_eaddress: String,
}

/// Whether `env` is the envelope for the invoice `xml`, parsed as `nodes`,
/// sent by `sender_eaddress` on behalf of `org` to `recipient`.
pub open spec fn is_invoice_envelope(
    env: DivEnvelope,
    sender_eaddress: Seq<char>,
    xml: Seq<char>,
    nodes: Seq<XmlNode>,
    recipient: Seq<char>,
    org: Seq<char>,
) -> bool {
    let bytes = vstd::utf8::encode_utf8(xml);
    &&& env.wf()
    &&& env.title()@ == "E-invoice: "@ + or_default(text_at(nodes, seq!["ID"@]), "UNKNOWN"@)
    &&& env.date()@ == or_default(text_at(nodes, seq!["IssueDate"@]), Seq::empty())
    &&& env.author_title()@ == org
    &&& env.file().name@ == "invoice.xml"@
    &&& env.file().mime_type@ == "application/xml"@
    &&& env.file().size == bytes.len()
    &&& env.file().content.digest_value@ == base64_of(sha256_of(bytes))
    &&& env.transport().sender_e_address@ == sender_eaddress
    &&& env.transport().sender_ref_number@.take(4) == "ref-"@
    &&& env.recipient()@ == recipient
}

/// The sending organisation named on an envelope: the invoice's supplier,
/// or a generic sender where the invoice names none.
pub open spec fn sender_org(nodes: Seq<XmlNode>) -> Seq<char> {
    match party_name(nodes, "AccountingSupplierParty"@) {
        Some(n) => n,
        None => "E-Invoice Sender"@,
    }
}

impl DivServiceClient {
    /// A shared gateway backend.
    pub fn new(base_url: String, cert_thumbprint: String, sender_eaddress: String) -> (r: Arc<Self>)
        ensures
            r.base_url == base_url,
            r.cert_thumbprint == cert_thumbprint,
            r.sender_eaddress == sender_eaddress,
    {
        Arc::new(DivServiceClient { base_url, cert_thumbprint, sender_eaddress })
    }

    /// The SOAP body that sends `envelope_xml`.
    pub fn build_soap_envelope(&self, envelope_xml: &str) -> (r: String)
        ensures
            r@ == send_message_soap(self.base_url@, envelope_xml@),
    {
        let mut out = String::from_str("<?xml version=\"1.0\" encoding=\"utf-8\"?>\n<s:Envelope xmlns:s=\"http://schemas.xmlsoap.org/soap/envelope/\" xmlns:a=\"http://www.w3.org/2005/08/addressing\">\n    <s:Header>\n        <a:Action s:mustUnderstand=\"1\">http://vraa.gov.lv/div/uui/2011/11/UnifiedServiceInterface/SendMessage</a:Action>\n        <a:To s:mustUnderstand=\"1\">");
        out.append(self.base_url.as_str());
        out.append("</a:To>\n    </s:Header>\n    <s:Body xmlns:xsi=\"http://www.w3.org/2001/XMLSchema-instance\" xmlns:xsd=\"http://www.w3.org/2001/XMLSchema\">\n        <SendMessageInput xmlns=\"http://vraa.gov.lv/xmlschemas/div/uui/2011/11\">\n            ");
        out.append(envelope_xml);
        out.append("\n        </SendMessageInput>\n    </s:Body>\n</s:Envelope>");
        out
    }

    /// The SOAP body that asks for up to `max_results` notifications.
    pub fn build_notification_list_soap(&self, max_results: i32) -> (r: String)
        ensures
            r@ == notification_list_soap(self.base_url@, signed_decimal(max_results as int)),
    {
        let mut out = String::from_str("<?xml version=\"1.0\" encoding=\"utf-8\"?>\n<s:Envelope xmlns:s=\"http://schemas.xmlsoap.org/soap/envelope/\" xmlns:a=\"http://www.w3.org/2005/08/addressing\">\n    <s:Header>\n        <a:Action s:mustUnderstand=\"1\">http://vraa.gov.lv/div/uui/2011/11/UnifiedServiceInterface/GetNotificationList</a:Action>\n        <a:To s:mustUnderstand=\"1\">");
        out.append(self.base_url.as_str());
        out.append("</a:To>\n    </s:Header>\n    <s:Body xmlns:xsi=\"http://www.w3.org/2001/XMLSchema-instance\" xmlns:xsd=\"http://www.w3.org/2001/XMLSchema\">\n        <GetNotificationListInput xmlns=\"http://vraa.gov.lv/xmlschemas/div/uui/2011/11\">\n            <MaxResultCount>");
        let max = i32_to_decimal(max_results);
        out.append(max.as_str());
        out.append("</MaxResultCount>\n        </GetNotificationListInput>\n    </s:Body>\n</s:Envelope>");
        out
    }

    /// The HTTP headers of a send request.
    pub fn get_auth_headers(&self) -> (r: Vec<(&'static str, String)>)
        ensures
            r@.len() == 2,
            r@[0].0@ == "Content-Type"@,
            r@[0].1@ == "application/soap+xml; charset=utf-8"@,
            r@[1].0@ == "SOAPAction"@,
            r@[1].1@ == "http://vraa.gov.lv/div/uui/2011/11/UnifiedServiceInterface/SendMessage"@,
    {
        let mut v: Vec<(&'static str, String)> = Vec::new();
        v.push(("Content-Type", String::from_str("application/soap+xml; charset=utf-8")));
        v.push(("SOAPAction", String::from_str("http://vraa.gov.lv/div/uui/2011/11/UnifiedServiceInterface/SendMessage")));
        v
    }

    /// The HTTP headers of a notification-list request.
    pub fn notification_headers(&self) -> (r: Vec<(&'static str, String)>)
        ensures
            r@.len() == 2,
            r@[0].0@ == "Content-Type"@,
            r@[0].1@ == "application/soap+xml; charset=utf-8"@,
            r@[1].0@ == "SOAPAction"@,
            r@[1].1@ == "http://vraa.gov.lv/div/uui/2011/11/UnifiedServiceInterface/GetNotificationList"@,
    {
        let mut v: Vec<(&'static str, String)> = Vec::new();
        v.push(("Content-Type", String::from_str("application/soap+xml; charset=utf-8")));
        v.push(("SOAPAction", String::from_str("http://vraa.gov.lv/div/uui/2011/11/UnifiedServiceInterface/GetNotificationList")));
        v
    }

    /// Maps a gateway message status onto a delivery state.
    pub fn map_status(div_status: &MessageStatus) -> (r: DeliveryState)
        ensures
            r == gateway_state(*div_status),
    {
        match div_status {
            MessageStatus::New | MessageStatus::Sent | MessageStatus::DeliveryDelayed => DeliveryState::InFlight,
            MessageStatus::Accepted | MessageStatus::RecipientAccepted => DeliveryState::Delivered,
            MessageStatus::Rejected | MessageStatus::RecipientRejected => DeliveryState::Failed,
        }
    }

    /// The envelope for the invoice `ubl_xml`, under a fresh reference
    /// number; fails where the invoice is not well-formed XML.
    pub fn build_div_envelope(&self, ubl_xml: &str, recipient_eaddress: &str, sender_org_name: &str) -> (r: Result<DivEnvelope, ProviderError>)
        ensures
            match xml_nodes_of(ubl_xml@) {
                Some(nodes) => r matches Ok(env)
                    && is_invoice_envelope(env, self.sender_eaddress@, ubl_xml@, nodes, recipient_eaddress@, sender_org_name@),
                None => r matches Err(ProviderError::Parse { .. }),
            },
    {
        let invoice = match parse_ubl_invoice(ubl_xml) {
            Ok(inv) => inv,
            Err(e) => {
                return Err(ProviderError::Parse {
                    context: String::from_str("Failed to parse UBL invoice for DIV envelope"),
                    detail: e,
                });
            },
        };
        let bytes = ubl_xml.as_bytes();
        let digest = compute_sha256_base64(bytes);
        let mut title = String::from_str("E-invoice: ");
        title.append(invoice.invoice_number.as_str());
        let mut reference = String::from_str("ref-");
        let id = random_uuid();
        reference.append(id.as_str());
        proof {
            reveal_strlit("ref-");
        }
        let env = DivEnvelope::new(
            title,
            invoice.issue_date,
            self.sender_eaddress.clone(),
            reference,
            recipient_eaddress.to_owned(),
            sender_org_name.to_owned(),
            String::from_str("invoice.xml"),
            String::from_str("application/xml"),
            bytes.len() as u64,
            digest,
        );
        proof {
            assert(env.transport().sender_ref_number@.take(4) =~= "ref-"@);
        }
        Ok(env)
    }

    /// The request that submits the invoice `xml` to `receiver`: the
    /// envelope, on behalf of the invoice's supplier, inside a SOAP body.
    /// Fails where the invoice is not well-formed XML.
    pub fn prepare_submission(&self, xml: &str, receiver: &str) -> (r: Result<SoapRequest, ProviderError>)
        ensures
            match xml_nodes_of(xml@) {
                Some(nodes) => r matches Ok(req) && exists|env: DivEnvelope|
                    is_invoice_envelope(env, self.sender_eaddress@, xml@, nodes, receiver@, sender_org(nodes))
                        && #[trigger] send_message_soap(self.base_url@, envelope_xml(env)) == req.body@
                        && req.message_id == env.transport().sender_ref_number,
                None => r matches Err(ProviderError::Parse { .. }),
            },
    {
        let invoice = match parse_ubl_invoice(xml) {
            Ok(inv) => inv,
            Err(e) => {
                return Err(ProviderError::Parse {
                    context: String::from_str("Failed to parse UBL invoice"),
                    detail: e,
                });
            },
        };
        let org = if !invoice.supplier_name.as_str().is_empty() {
            invoice.supplier_name.clone()
        } else {
            String::from_str("E-Invoice Sender")
        };
        proof {
            reveal_strlit("");
        }
        let env = match self.build_div_envelope(xml, receiver, org.as_str()) {
            Ok(env) => env,
            Err(e) => {
                return Err(e);
            },
        };
        let message_id = env.sender_document.sender_transport_metadata.sender_ref_number.clone();
        let envelope = env.to_xml();
        let body = self.build_soap_envelope(envelope.as_str());
        let headers = self.get_auth_headers();
        Ok(SoapRequest { message_id, headers, body })
    }

    /// The outcome of a submission, from the gateway's answer: the
    /// message's reference where the gateway accepted it.
    pub fn submit_outcome(&self, message_id: String, http_status: u16, body: String) -> (r: Result<String, ProviderError>)
        ensures
            is_success_status(http_status) ==> r == Ok::<String, ProviderError>(message_id),
            !is_success_status(http_status) ==> (r matches Err(ProviderError::Protocol { status, body: b, .. })
                && status == http_status && b == body),
    {
        match check_response("DIV UnifiedService submit", http_status, body) {
            Ok(_) => Ok(message_id),
            Err(e) => Err(e),
        }
    }

    /// The outcome of a notification-list query, from the gateway's
    /// answer: the latest status of `message_id`, or in flight where the
    /// list does not mention it.
    pub fn status_outcome(&self, message_id: &str, http_status: u16, body: String) -> (r: Result<DeliveryStatus, ProviderError>)
        ensures
            match gateway_status_outcome(message_id@, http_status, body@) {
                Some(state) => r matches Ok(s) && s.state == state && s.transmission_id@ == message_id@,
                None => r is Err,
            },
            !is_success_status(http_status) ==> r matches Err(ProviderError::Protocol { .. }),
    {
        let text = match check_response("DIV notification query", http_status, body) {
            Ok(t) => t,
            Err(e) => {
                return Err(e);
            },
        };
        match parse_xml(text.as_str()) {
            Ok(nodes) => {
                let notes = notifications_from_nodes(&nodes);
                Ok(status_from_notifications(message_id, &notes))
            },
            Err(e) => Err(ProviderError::Parse {
                context: String::from_str("Failed to read DIV notification response"),
                detail: e,
            }),
        }
    }
}

/// The gateway's seven message statuses collapse onto three delivery
/// states: new, sent and delayed messages are in flight; accepted ones,
/// by the gateway or the recipient, are delivered; rejected ones failed.
pub proof fn lemma_gateway_mapping()
    ensures
        gateway_state(MessageStatus::New) == DeliveryState::InFlight,
        gateway_state(MessageStatus::Sent) == DeliveryState::InFlight,
        gateway_state(MessageStatus::DeliveryDelayed) == DeliveryState::InFlight,
        gateway_state(MessageStatus::Accepted) == DeliveryState::Delivered,
        gateway_state(MessageStatus::RecipientAccepted) == DeliveryState::Delivered,
        gateway_state(MessageStatus::Rejected) == DeliveryState::Failed,
        gateway_state(MessageStatus::RecipientRejected) == DeliveryState::Failed,
        forall|s: MessageStatus| gateway_state(s) != DeliveryState::Pending,
{
}

/// Querying the same message twice against an unchanged gateway yields
/// the same delivery state both times.
pub proof fn lemma_gateway_status_idempotent(
    message_id: Seq<char>,
    http_status: u16,
    body: Seq<char>,
    first: DeliveryState,
    second: DeliveryState,
)
    requires
        gateway_status_outcome(message_id, http_status, body) == Some(first),
        gateway_status_outcome(message_id, http_status, body) == Some(second),
    ensures
        first == second,
{
}

} // verus!
