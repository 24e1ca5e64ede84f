//! Invoice content digests and field extraction from UBL invoice documents.

use vstd::prelude::*;
use crate::boundary::{hex_encode, hex_of, sha256_digest, sha256_of};
use crate::text::opt_view;
use crate::xml::{get_text_at_path, parse_xml, text_at, xml_nodes_of, XmlNode};

verus! {

/// The digest recorded for an invoice: SHA-256 over the UTF-8 bytes of
/// the text, in lower-case hex.
pub open spec fn invoice_digest(xml: Seq<char>) -> Seq<char> {
    hex_of(sha256_of(vstd::utf8::encode_utf8(xml)))
}

/// The lower-case hex SHA-256 digest of the exact bytes of `xml`.
pub fn compute_sha256_hex(xml: &str) -> (r: String)
    ensures
        r@ == invoice_digest(xml@),
{
    let digest = sha256_digest(xml.as_bytes());
    hex_encode(digest.as_slice())
}

/// The fields of a UBL invoice that delivery and validation read.
#[derive(Clone, Debug)]
pub struct UBLInvoice {
    pub invoice_number: String,
    pub issue_date: String,
    pub due_date: Option<String>,
    pub currency_code: String,
    pub supplier_name: String,
    pub supplier_id: Option<String>,
    pub customer_name: String,
    pub customer_id: Option<String>,
    pub tax_total: Option<String>,
    pub payable_amount: Option<String>,
}

/// The first of two optional texts that is present.
pub open spec fn first_of(a: Option<Seq<char>>, b: Option<Seq<char>>) -> Option<Seq<char>> {
    if a is Some { a } else { b }
}

/// An optional text, or `d` where it is absent.
pub open spec fn or_default(a: Option<Seq<char>>, d: Seq<char>) -> Seq<char> {
    match a {
        Some(t) => t,
        None => d,
    }
}

/// The name of a party (`AccountingSupplierParty` or
/// `AccountingCustomerParty`): its party name, else its registration name.
pub open spec fn party_name(nodes: Seq<XmlNode>, party: Seq<char>) -> Option<Seq<char>> {
    first_of(
        text_at(nodes, seq![party, "Party"@, "PartyName"@, "Name"@]),
        text_at(nodes, seq![party, "Party"@, "PartyLegalEntity"@, "RegistrationName"@]),
    )
}

/// Whether `inv` holds the fields that the document `nodes` gives.
pub open spec fn invoice_fields(inv: UBLInvoice, nodes: Seq<XmlNode>) -> bool {
    &&& inv.invoice_number@ == or_default(text_at(nodes, seq!["ID"@]), "UNKNOWN"@)
    &&& inv.issue_date@ == or_default(text_at(nodes, seq!["IssueDate"@]), Seq::empty())
    &&& opt_view(inv.due_date) == text_at(nodes, seq!["DueDate"@])
    &&& inv.currency_code@ == or_default(text_at(nodes, seq!["DocumentCurrencyCode"@]), Seq::empty())
    &&& inv.supplier_name@ == or_default(party_name(nodes, "AccountingSupplierParty"@), Seq::empty())
    &&& opt_view(inv.supplier_id) == text_at(nodes, seq!["AccountingSupplierParty"@, "Party"@, "EndpointID"@])
    &&& inv.customer_name@ == or_default(party_name(nodes, "AccountingCustomerParty"@), Seq::empty())
    &&& opt_view(inv.customer_id) == text_at(nodes, seq!["AccountingCustomerParty"@, "Party"@, "EndpointID"@])
    &&& opt_view(inv.tax_total) == text_at(nodes, seq!["TaxTotal"@, "TaxAmount"@])
    &&& opt_view(inv.payable_amount) == text_at(nodes, seq!["LegalMonetaryTotal"@, "PayableAmount"@])
}

fn path1(a: &'static str) -> (r: Vec<&'static str>)
    ensures
        r@ == seq![a],
{
    let mut v: Vec<&'static str> = Vec::new();
    v.push(a);
    v
}

fn path2(a: &'static str, b: &'static str) -> (r: Vec<&'static str>)
    ensures
        r@ == seq![a, b],
{
    let mut v = path1(a);
    v.push(b);
    v
}

fn path3(a: &'static str, b: &'static str, c: &'static str) -> (r: Vec<&'static str>)
    ensures
        r@ == seq![a, b, c],
{
    let mut v = path2(a, b);
    v.push(c);
    v
}

fn path4(a: &'static str, b: &'static str, c: &'static str, d: &'static str) -> (r: Vec<&'static str>)
    ensures
        r@ == seq![a, b, c, d],
{
    let mut v = path3(a, b, c);
    v.push(d);
    v
}

fn text_or(t: Option<String>, d: &str) -> (r: String)
    ensures
        r@ == or_default(opt_view(t), d@),
{
    match t {
        Some(s) => s,
        None => d.to_owned(),
    }
}

fn party_name_exec(nodes: &Vec<XmlNode>, party: &'static str) -> (r: Option<String>)
    ensures
        opt_view(r) == party_name(nodes@, party@),
{
    let p = path4(party, "Party", "PartyName", "Name");
    proof {
        assert(crate::xml::path_view(p@) =~= seq![party@, "Party"@, "PartyName"@, "Name"@]);
    }
    match get_text_at_path(nodes, p.as_slice()) {
        Some(t) => Some(t),
        None => {
            let q = path4(party, "Party", "PartyLegalEntity", "RegistrationName");
            proof {
                assert(crate::xml::path_view(q@) =~= seq![party@, "Party"@, "PartyLegalEntity"@, "RegistrationName"@]);
            }
            get_text_at_path(nodes, q.as_slice())
        },
    }
}

fn text1(nodes: &Vec<XmlNode>, a: &'static str) -> (r: Option<String>)
    ensures
        opt_view(r) == text_at(nodes@, seq![a@]),
{
    let p = path1(a);
    proof {
        assert(crate::xml::path_view(p@) =~= seq![a@]);
    }
    get_text_at_path(nodes, p.as_slice())
}

fn text2(nodes: &Vec<XmlNode>, a: &'static str, b: &'static str) -> (r: Option<String>)
    ensures
        opt_view(r) == text_at(nodes@, seq![a@, b@]),
{
    let p = path2(a, b);
    proof {
        assert(crate::xml::path_view(p@) =~= seq![a@, b@]);
    }
    get_text_at_path(nodes, p.as_slice())
}

fn text3(nodes: &Vec<XmlNode>, a: &'static str, b: &'static str, c: &'static str) -> (r: Option<String>)
    ensures
        opt_view(r) == text_at(nodes@, seq![a@, b@, c@]),
{
    let p = path3(a, b, c);
    proof {
        assert(crate::xml::path_view(p@) =~= seq![a@, b@, c@]);
    }
    get_text_at_path(nodes, p.as_slice())
}

/// The invoice fields of the document `nodes`; a missing invoice number
/// reads `UNKNOWN`, other missing mandatory texts read empty.
pub fn invoice_from_nodes(nodes: &Vec<XmlNode>) -> (r: UBLInvoice)
    ensures
        invoice_fields(r, nodes@),
{
    proof {
        reveal_strlit("");
    }
    let invoice_number = text_or(text1(nodes, "ID"), "UNKNOWN");
    let issue_date = text_or(text1(nodes, "IssueDate"), "");
    let due_date = text1(nodes, "DueDate");
    let currency_code = text_or(text1(nodes, "DocumentCurrencyCode"), "");
    let supplier_name = text_or(party_name_exec(nodes, "AccountingSupplierParty"), "");
    let supplier_id = text3(nodes, "AccountingSupplierParty", "Party", "EndpointID");
    let customer_name = text_or(party_name_exec(nodes, "AccountingCustomerParty"), "");
    let customer_id = text3(nodes, "AccountingCustomerParty", "Party", "EndpointID");
    let tax_total = text2(nodes, "TaxTotal", "TaxAmount");
    let payable_amount = text2(nodes, "LegalMonetaryTotal", "PayableAmount");
    assert(issue_date@ == or_default(text_at(nodes@, seq!["IssueDate"@]), Seq::empty()));
    assert(supplier_name@ == or_default(party_name(nodes@, "AccountingSupplierParty"@), Seq::empty()));
    assert(invoice_number@ == or_default(text_at(nodes@, seq!["ID"@]), "UNKNOWN"@));
    assert(opt_view(due_date) == text_at(nodes@, seq!["DueDate"@]));
    assert(currency_code@ == or_default(text_at(nodes@, seq!["DocumentCurrencyCode"@]), Seq::empty()));
    assert(opt_view(supplier_id) == text_at(nodes@, seq!["AccountingSupplierParty"@, "Party"@, "EndpointID"@]));
    assert(customer_name@ == or_default(party_name(nodes@, "AccountingCustomerParty"@), Seq::empty()));
    assert(opt_view(tax_total) == text_at(nodes@, seq!["TaxTotal"@, "TaxAmount"@]));
    UBLInvoice {
        invoice_number,
        issue_date,
        due_date,
        currency_code,
        supplier_name,
        supplier_id,
        customer_name,
        customer_id,
        tax_total,
        payable_amount,
    }
}

/// The invoice fields of a UBL document, or the XML parser's message
/// where the text is not well-formed XML.
pub fn parse_ubl_invoice(xml: &str) -> (r: Result<UBLInvoice, String>)
    ensures
        match xml_nodes_of(xml@) {
            Some(nodes) => r matches Ok(inv) && invoice_fields(inv, nodes),
            None => r is Err,
        },
{
    match parse_xml(xml) {
        Ok(nodes) => Ok(invoice_from_nodes(&nodes)),
        Err(e) => Err(e),
    }
}

} // verus!
