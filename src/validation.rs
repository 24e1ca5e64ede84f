//! EN16931 field-presence checks on UBL invoices. Failed checks are
//! collected, never fatal: the caller decides what to do with them.

use vstd::prelude::*;
use crate::parsing::{invoice_from_nodes, or_default, party_name, UBLInvoice};
use crate::text::{chars_of, contains_seq, contains_text, opt_view};
use crate::xml::{parse_xml, text_at, xml_nodes_of, XmlNode};

verus! {

/// The messages of the failed checks on an invoice's fields.
pub open spec fn field_errors(
    number: Seq<char>,
    date: Seq<char>,
    currency: Seq<char>,
    supplier: Seq<char>,
    customer: Seq<char>,
    payable: Option<Seq<char>>,
) -> Seq<Seq<char>> {
    let e1: Seq<Seq<char>> = if number.len() == 0 || number == "UNKNOWN"@ {
        seq!["BT-1: Invoice number is mandatory"@]
    } else {
        seq![]
    };
    let e2: Seq<Seq<char>> = if date.len() == 0 {
        seq!["BT-2: Issue date is mandatory"@]
    } else {
        seq![]
    };
    let e3: Seq<Seq<char>> = if currency.len() == 0 {
        seq!["BT-5: Currency code is mandatory"@]
    } else if currency.len() != 3 {
        seq!["BT-5: Currency code must be 3 characters (ISO 4217)"@]
    } else {
        seq![]
    };
    let e4: Seq<Seq<char>> = if supplier.len() == 0 {
        seq!["BG-4: Seller name is mandatory"@]
    } else {
        seq![]
    };
    let e5: Seq<Seq<char>> = if customer.len() == 0 {
        seq!["BG-7: Buyer name is mandatory"@]
    } else {
        seq![]
    };
    let e6: Seq<Seq<char>> = if payable is None {
        seq!["BT-115: Payable amount should be present"@]
    } else {
        seq![]
    };
    e1 + e2 + e3 + e4 + e5 + e6
}

/// The messages of the failed checks on an invoice.
pub open spec fn invoice_errors(inv: UBLInvoice) -> Seq<Seq<char>> {
    field_errors(
        inv.invoice_number@,
        inv.issue_date@,
        inv.currency_code@,
        inv.supplier_name@,
        inv.customer_name@,
        opt_view(inv.payable_amount),
    )
}

/// The messages of the failed checks on the invoice that `nodes` hold.
pub open spec fn document_errors(nodes: Seq<XmlNode>) -> Seq<Seq<char>> {
    field_errors(
        or_default(text_at(nodes, seq!["ID"@]), "UNKNOWN"@),
        or_default(text_at(nodes, seq!["IssueDate"@]), Seq::empty()),
        or_default(text_at(nodes, seq!["DocumentCurrencyCode"@]), Seq::empty()),
        or_default(party_name(nodes, "AccountingSupplierParty"@), Seq::empty()),
        or_default(party_name(nodes, "AccountingCustomerParty"@), Seq::empty()),
        text_at(nodes, seq!["LegalMonetaryTotal"@, "PayableAmount"@]),
    )
}

/// The messages a check outcome carries: none for success.
pub open spec fn outcome_messages(r: Result<(), Vec<String>>) -> Seq<Seq<char>> {
    match r {
        Ok(()) => Seq::empty(),
        Err(v) => v@.map_values(|s: String| s@),
    }
}

/// Whether a check outcome reports exactly `msgs`: success where there
/// are none, else the messages in order.
pub open spec fn reports(r: Result<(), Vec<String>>, msgs: Seq<Seq<char>>) -> bool {
    &&& outcome_messages(r) == msgs
    &&& (r is Ok <==> msgs.len() == 0)
}

/// Whether the text names a UBL invoice root element.
pub open spec fn has_invoice_root(xml: Seq<char>) -> bool {
    contains_seq(xml, "<Invoice"@) || contains_seq(xml, "<invoice"@)
}

fn push_if(errs: &mut Vec<String>, cond: bool, msg: &str)
    ensures
        final(errs)@.map_values(|s: String| s@) == old(errs)@.map_values(|s: String| s@) + (if cond {
            seq![msg@]
        } else {
            Seq::<Seq<char>>::empty()
        }),
{
    let ghost before = errs@;
    if cond {
        errs.push(msg.to_owned());
        assert(errs@.map_values(|s: String| s@) =~= before.map_values(|s: String| s@) + seq![msg@]);
    } else {
        assert(errs@.map_values(|s: String| s@) =~= before.map_values(|s: String| s@) + Seq::<Seq<char>>::empty());
    }
}

/// The EN16931 checks on an invoice's fields: invoice number, issue date,
/// a three-letter currency code, seller and buyer names, payable amount.
pub fn check_invoice_fields(invoice: &UBLInvoice) -> (r: Result<(), Vec<String>>)
    ensures
        reports(r, invoice_errors(*invoice)),
{
    let mut errs: Vec<String> = Vec::new();
    let number = invoice.invoice_number.as_str();
    let currency_len = chars_of(invoice.currency_code.as_str()).len();
    push_if(&mut errs, number.is_empty() || crate::text::text_eq(number, "UNKNOWN"), "BT-1: Invoice number is mandatory");
    push_if(&mut errs, invoice.issue_date.as_str().is_empty(), "BT-2: Issue date is mandatory");
    push_if(&mut errs, currency_len == 0, "BT-5: Currency code is mandatory");
    push_if(&mut errs, currency_len != 0 && currency_len != 3, "BT-5: Currency code must be 3 characters (ISO 4217)");
    push_if(&mut errs, invoice.supplier_name.as_str().is_empty(), "BG-4: Seller name is mandatory");
    push_if(&mut errs, invoice.customer_name.as_str().is_empty(), "BG-7: Buyer name is mandatory");
    push_if(&mut errs, invoice.payable_amount.is_none(), "BT-115: Payable amount should be present");
    proof {
        assert(errs@.map_values(|s: String| s@) =~= invoice_errors(*invoice));
    }
    if errs.len() == 0 {
        Ok(())
    } else {
        Err(errs)
    }
}

/// The EN16931 checks on an invoice document: the document must name an
/// `Invoice` root element and be well-formed XML, and its fields must pass
/// `check_invoice_fields`.
pub fn basic_en16931_checks(xml: &str) -> (r: Result<(), Vec<String>>)
    ensures
        !has_invoice_root(xml@) ==> reports(r, seq!["Missing UBL Invoice root element"@]),
        has_invoice_root(xml@) ==> match xml_nodes_of(xml@) {
            None => r is Err && outcome_messages(r).len() == 1
                && outcome_messages(r)[0].take(21) == "Failed to parse UBL: "@,
            Some(nodes) => reports(r, document_errors(nodes)),
        },
{
    if !contains_text(xml, "<Invoice") && !contains_text(xml, "<invoice") {
        let mut errs: Vec<String> = Vec::new();
        errs.push(String::from_str("Missing UBL Invoice root element"));
        proof {
            assert(outcome_messages(Err::<(), Vec<String>>(errs)) =~= seq!["Missing UBL Invoice root element"@]);
        }
        return Err(errs);
    }
    match parse_xml(xml) {
        Err(e) => {
            let mut msg = String::from_str("Failed to parse UBL: ");
            proof {
                reveal_strlit("Failed to parse UBL: ");
            }
            msg.append(e.as_str());
            let mut errs: Vec<String> = Vec::new();
            errs.push(msg);
            proof {
                assert(outcome_messages(Err::<(), Vec<String>>(errs))[0] == msg@);
                assert(msg@.take(21) =~= "Failed to parse UBL: "@);
            }
            Err(errs)
        },
        Ok(nodes) => {
            let invoice = invoice_from_nodes(&nodes);
            check_invoice_fields(&invoice)
        },
    }
}

/// Validates an invoice document against the EN16931 field-presence rules.
pub fn validate(xml: &str) -> (r: Result<(), Vec<String>>)
    ensures
        !has_invoice_root(xml@) ==> reports(r, seq!["Missing UBL Invoice root element"@]),
        has_invoice_root(xml@) ==> match xml_nodes_of(xml@) {
            None => r is Err && outcome_messages(r).len() == 1
                && outcome_messages(r)[0].take(21) == "Failed to parse UBL: "@,
            Some(nodes) => reports(r, document_errors(nodes)),
        },
{
    basic_en16931_checks(xml)
}

} // verus!
