//! Plain invoice-level models shared with callers.

use vstd::prelude::*;

verus! {

/// The delivery lifecycle as shown for a single invoice.
#[derive(Clone, Copy, Debug, PartialEq, Eq, Structural)]
pub enum DeliveryStatus {
    Pending,
    InFlight,
    Delivered,
    Failed,
}

/// Who sends which invoice to whom, under which profile, and its digest.
#[derive(Clone, Debug)]
pub struct InvoiceMetadata {
    pub invoice_id: String,
    pub sender: String,
    pub receiver: String,
    pub profile: String,
    pub sha256: String,
}

} // verus!
