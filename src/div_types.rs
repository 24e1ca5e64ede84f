//! The gateway's document envelope: the structured metadata that wraps an
//! invoice for delivery through the government postal gateway, and its XML
//! form.

use vstd::prelude::*;
use crate::boundary::{base64_encode, base64_of, sha256_digest, sha256_of};
use crate::text::{decimal, push_decimal};

verus! {

/// The top-level envelope of a gateway message.
#[derive(Clone, Debug)]
pub struct DivEnvelope {
    pub sender_document: SenderDocument,
}

/// The sender's section of an envelope.
#[derive(Clone, Debug)]
pub struct SenderDocument {
    pub document_metadata: DocumentMetadata,
    pub sender_transport_metadata: SenderTransportMetadata,
}

/// What the document is, and where its content lies.
#[derive(Clone, Debug)]
pub struct DocumentMetadata {
    pub general_metadata: GeneralMetadata,
    pub payload_reference: Option<DocumentPayload>,
}

/// Title, date, kind and authors of a document.
#[derive(Clone, Debug)]
pub struct GeneralMetadata {
    pub authors: Authors,
    /// The document date, `YYYY-MM-DD`.
    pub date: String,
    pub document_kind: DocumentKind,
    pub description: Option<String>,
    pub title: String,
}

/// The authors of a document.
#[derive(Clone, Debug)]
pub struct Authors {
    pub author_entry: Vec<Correspondent>,
}

/// The kind of a document, such as `EINVOICE` version `1.0`.
#[derive(Clone, Debug)]
pub struct DocumentKind {
    pub document_kind_code: String,
    pub document_kind_version: String,
    pub document_kind_name: Option<String>,
}

/// The files that make up a document's content.
#[derive(Clone, Debug)]
pub struct DocumentPayload {
    pub file: Vec<FileEntry>,
}

/// One content file.
#[derive(Clone, Debug)]
pub struct FileEntry {
    pub mime_type: String,
    /// Size in bytes.
    pub size: u64,
    pub name: String,
    pub content: ContentReference,
    pub compressed: bool,
}

/// Where a file's bytes travel in the message, and their digest.
#[derive(Clone, Debug)]
pub struct ContentReference {
    pub content_reference: String,
    /// Base64 SHA-256 digest of the file's bytes.
    pub digest_value: String,
}

/// Addressing and delivery options of a message.
#[derive(Clone, Debug)]
pub struct SenderTransportMetadata {
    pub sender_e_address: String,
    pub sender_ref_number: String,
    pub recipients: Recipients,
    pub notify_sender_on_delivery: bool,
    pub priority: String,
}

/// The recipients of a message.
#[derive(Clone, Debug)]
pub struct Recipients {
    pub recipient_entry: Vec<RecipientEntry>,
}

/// One recipient, by electronic address.
#[derive(Clone, Debug)]
pub struct RecipientEntry {
    pub recipient_e_address: String,
}

/// An author: an institution or a private person.
#[derive(Clone, Debug)]
pub struct Correspondent {
    pub institution: Option<InstitutionData>,
    pub private_person: Option<PrivatePersonData>,
}

/// An institution author.
#[derive(Clone, Debug)]
pub struct InstitutionData {
    pub title: String,
    pub registration_number: Option<String>,
}

/// A private person author.
#[derive(Clone, Debug)]
pub struct PrivatePersonData {
    pub name: String,
    pub surname: String,
}

impl DivEnvelope {
    /// Whether the envelope names an institution as its first author, has
    /// a content file, and has a recipient.
    pub open spec fn wf(&self) -> bool {
        let g = self.sender_document.document_metadata.general_metadata;
        &&& g.authors.author_entry@.len() > 0
        &&& g.authors.author_entry@[0].institution is Some
        &&& self.sender_document.document_metadata.payload_reference is Some
        &&& self.sender_document.document_metadata.payload_reference->0.file@.len() > 0
        &&& self.sender_document.sender_transport_metadata.recipients.recipient_entry@.len() > 0
    }

    pub open spec fn title(&self) -> String {
        self.sender_document.document_metadata.general_metadata.title
    }

    pub open spec fn date(&self) -> String {
        self.sender_document.document_metadata.general_metadata.date
    }

    /// The title of the first author's institution.
    pub open spec fn author_title(&self) -> String {
        self.sender_document.document_metadata.general_metadata.authors.author_entry@[0].institution->0.title
    }

    /// The first content file.
    pub open spec fn file(&self) -> FileEntry {
        self.sender_document.document_metadata.payload_reference->0.file@[0]
    }

    pub open spec fn transport(&self) -> SenderTransportMetadata {
        self.sender_document.sender_transport_metadata
    }

    /// The first recipient's address.
    pub open spec fn recipient(&self) -> String {
        self.sender_document.sender_transport_metadata.recipients.recipient_entry@[0].recipient_e_address
    }
}

/// The XML form of an envelope.
pub open spec fn envelope_xml(e: DivEnvelope) -> Seq<char> {
        "<Envelope xmlns=\"http://ivis.eps.gov.lv/XMLSchemas/100001/DIV/v1-0\">\n  <SenderDocument Id=\"SenderSection\">\n    <DocumentMetadata>\n      <GeneralMetadata>\n        <Title>"@ + e.title()@
        + "</Title>\n        <Date>"@ + e.date()@
        + "</Date>\n        <DocumentKind>\n          <DocumentKindCode>EINVOICE</DocumentKindCode>\n          <DocumentKindVersion>1.0</DocumentKindVersion>\n          <DocumentKindName>E-invoice</DocumentKindName>\n        </DocumentKind>\n        <Authors>\n          <AuthorEntry>\n            <Institution>\n              <Title>"@ + e.author_title()@
        + "</Title>\n            </Institution>\n          </AuthorEntry>\n        </Authors>\n      </GeneralMetadata>\n      <PayloadReference>\n        <File>\n          <MimeType>"@ + e.file().mime_type@
        + "</MimeType>\n          <Size>"@ + decimal(e.file().size as nat)
        + "</Size>\n          <Name>"@ + e.file().name@
        + "</Name>\n          <Content>\n            <ContentReference>cid:invoice-content</ContentReference>\n            <DigestMethod Algorithm=\"http://www.w3.org/2001/04/xmlenc#sha256\"/>\n            <DigestValue>"@ + e.file().content.digest_value@
        + "</DigestValue>\n          </Content>\n          <Compressed>false</Compressed>\n        </File>\n      </PayloadReference>\n    </DocumentMetadata>\n    <SenderTransportMetadata>\n      <SenderE-Address>"@ + e.transport().sender_e_address@
        + "</SenderE-Address>\n      <SenderRefNumber>"@ + e.transport().sender_ref_number@
        + "</SenderRefNumber>\n      <Recipients>\n        <RecipientEntry>\n          <RecipientE-Address>"@ + e.recipient()@
        + "</RecipientE-Address>\n        </RecipientEntry>\n      </Recipients>\n      <NotifySenderOnDelivery>true</NotifySenderOnDelivery>\n      <Priority>"@ + e.transport().priority@
        + "</Priority>\n    </SenderTransportMetadata>\n  </SenderDocument>\n</Envelope>"@
}

impl DivEnvelope {
    /// An envelope for one e-invoice file, sent by an institution to one
    /// recipient, with delivery notification and normal priority.
    pub fn new(
        title: String,
        date: String,
        sender_e_address: String,
        sender_ref_number: String,
        recipient_e_address: String,
        sender_org_name: String,
        file_name: String,
        mime_type: String,
        file_size: u64,
        digest_value: String,
    ) -> (r: Self)
        ensures
            r.wf(),
            r.title() == title,
            r.date() == date,
            r.author_title() == sender_org_name,
            r.file().mime_type == mime_type,
            r.file().size == file_size,
            r.file().name == file_name,
            r.file().content.content_reference@ == "cid:invoice-content"@,
            r.file().content.digest_value == digest_value,
            !r.file().compressed,
            r.transport().sender_e_address == sender_e_address,
            r.transport().sender_ref_number == sender_ref_number,
            r.recipient() == recipient_e_address,
            r.transport().notify_sender_on_delivery,
            r.transport().priority@ == "normal"@,
            r.sender_document.document_metadata.general_metadata.document_kind.document_kind_code@ == "EINVOICE"@,
            r.sender_document.document_metadata.general_metadata.document_kind.document_kind_version@ == "1.0"@,
            r.sender_document.document_metadata.general_metadata.document_kind.document_kind_name matches Some(n)
                && n@ == "E-invoice"@,
            r.sender_document.document_metadata.general_metadata.description is None,
            r.sender_document.document_metadata.general_metadata.authors.author_entry@.len() == 1,
            r.sender_document.document_metadata.general_metadata.authors.author_entry@[0].private_person is None,
            r.sender_document.document_metadata.general_metadata.authors.author_entry@[0].institution->0.registration_number is None,
            r.sender_document.document_metadata.payload_reference->0.file@.len() == 1,
            r.sender_document.sender_transport_metadata.recipients.recipient_entry@.len() == 1,
    {
        DivEnvelope {
            sender_document: SenderDocument {
                document_metadata: DocumentMetadata {
                    general_metadata: GeneralMetadata {
                        authors: Authors {
                            author_entry: vec![Correspondent {
                                institution: Some(InstitutionData {
                                    title: sender_org_name,
                                    registration_number: None,
                                }),
                                private_person: None,
                            }],
                        },
                        date,
                        document_kind: DocumentKind {
                            document_kind_code: String::from_str("EINVOICE"),
                            document_kind_version: String::from_str("1.0"),
                            document_kind_name: Some(String::from_str("E-invoice")),
                        },
                        description: None,
                        title,
                    },
                    payload_reference: Some(DocumentPayload {
                        file: vec![FileEntry {
                            mime_type,
                            size: file_size,
                            name: file_name,
                            content: ContentReference {
                                content_reference: String::from_str("cid:invoice-content"),
                                digest_value,
                            },
                            compressed: false,
                        }],
                    }),
                },
                sender_transport_metadata: SenderTransportMetadata {
                    sender_e_address,
                    sender_ref_number,
                    recipients: Recipients {
                        recipient_entry: vec![RecipientEntry { recipient_e_address }],
                    },
                    notify_sender_on_delivery: true,
                    priority: String::from_str("normal"),
                },
            },
        }
    }

    /// The envelope's XML form.
    pub fn to_xml(&self) -> (r: String)
        requires
            self.wf(),
        ensures
            r@ == envelope_xml(*self),
    {
        let general = &self.sender_document.document_metadata.general_metadata;
        let title = general.title.as_str();
        let date = general.date.as_str();
        let author = match &general.authors.author_entry[0].institution {
            Some(inst) => inst.title.as_str(),
            None => "",
        };
        let file = match &self.sender_document.document_metadata.payload_reference {
            Some(p) => &p.file[0],
            None => {
                proof {
                    assert(false);
                }
                return String::new();
            },
        };
        let transport = &self.sender_document.sender_transport_metadata;
        let recipient = transport.recipients.recipient_entry[0].recipient_e_address.as_str();
        let mut out = String::new();
        out.append("<Envelope xmlns=\"http://ivis.eps.gov.lv/XMLSchemas/100001/DIV/v1-0\">\n  <SenderDocument Id=\"SenderSection\">\n    <DocumentMetadata>\n      <GeneralMetadata>\n        <Title>");
        out.append(title);
        out.append("</Title>\n        <Date>");
        out.append(date);
        out.append("</Date>\n        <DocumentKind>\n          <DocumentKindCode>EINVOICE</DocumentKindCode>\n          <DocumentKindVersion>1.0</DocumentKindVersion>\n          <DocumentKindName>E-invoice</DocumentKindName>\n        </DocumentKind>\n        <Authors>\n          <AuthorEntry>\n            <Institution>\n              <Title>");
        out.append(author);
        out.append("</Title>\n            </Institution>\n          </AuthorEntry>\n        </Authors>\n      </GeneralMetadata>\n      <PayloadReference>\n        <File>\n          <MimeType>");
        out.append(file.mime_type.as_str());
        out.append("</MimeType>\n          <Size>");
        push_decimal(&mut out, file.size);
        out.append("</Size>\n          <Name>");
        out.append(file.name.as_str());
        out.append("</Name>\n          <Content>\n            <ContentReference>cid:invoice-content</ContentReference>\n            <DigestMethod Algorithm=\"http://www.w3.org/2001/04/xmlenc#sha256\"/>\n            <DigestValue>");
        out.append(file.content.digest_value.as_str());
        out.append("</DigestValue>\n          </Content>\n          <Compressed>false</Compressed>\n        </File>\n      </PayloadReference>\n    </DocumentMetadata>\n    <SenderTransportMetadata>\n      <SenderE-Address>");
        out.append(transport.sender_e_address.as_str());
        out.append("</SenderE-Address>\n      <SenderRefNumber>");
        out.append(transport.sender_ref_number.as_str());
        out.append("</SenderRefNumber>\n      <Recipients>\n        <RecipientEntry>\n          <RecipientE-Address>");
        out.append(recipient);
        out.append("</RecipientE-Address>\n        </RecipientEntry>\n      </Recipients>\n      <NotifySenderOnDelivery>true</NotifySenderOnDelivery>\n      <Priority>");
        out.append(transport.priority.as_str());
        out.append("</Priority>\n    </SenderTransportMetadata>\n  </SenderDocument>\n</Envelope>");
        proof {
            assert(out@ =~= envelope_xml(*self));
        }
        out
    }
}

/// The base64 SHA-256 digest of `data`.
pub fn compute_sha256_base64(data: &[u8]) -> (r: String)
    ensures
        r@ == base64_of(sha256_of(data@)),
{
    let digest = sha256_digest(data);
    base64_encode(digest.as_slice())
}

} // verus!
