//! The delivery vocabulary shared by every backend: the delivery state
//! machine, the status a backend reports, and the errors a backend call
//! can end in.

use vstd::prelude::*;
use crate::text::{decimal, push_decimal, text_eq};
use crate::boundary::{lower_of, to_lowercase};

verus! {

broadcast use vstd::string::group_string_axioms;

/// Where a submitted document stands with its recipient.
#[derive(Clone, Copy, Debug, PartialEq, Eq, Structural)]
pub enum DeliveryState {
    Pending,
    InFlight,
    Delivered,
    Failed,
}

/// What a backend reports about one transmission.
#[derive(Clone, Debug)]
pub struct DeliveryStatus {
    pub transmission_id: String,
    pub state: DeliveryState,
    pub message: Option<String>,
}

/// Why a call to a delivery backend did not produce a result.
#[derive(Clone, Debug)]
pub enum ProviderError {
    /// The request could not be sent, or its response could not be read.
    Transport { context: String, detail: String },
    /// The backend answered with a non-success status code.
    Protocol { context: String, status: u16, body: String },
    /// The backend's answer, or the document, could not be interpreted.
    Parse { context: String, detail: String },
    /// No usable credentials could be obtained.
    Credentials { detail: String },
}

pub open spec fn transport_text(context: Seq<char>, detail: Seq<char>) -> Seq<char> {
    context + ": "@ + detail
}

pub open spec fn protocol_text(context: Seq<char>, status: u16, body: Seq<char>) -> Seq<char> {
    context + " failed: "@ + decimal(status as nat) + " - "@ + body
}

pub open spec fn credentials_text(detail: Seq<char>) -> Seq<char> {
    "credential retrieval failed: "@ + detail
}

/// The human-readable text of an error, as stored in a job's `last_error`.
pub open spec fn error_text(e: ProviderError) -> Seq<char> {
    match e {
        ProviderError::Transport { context, detail } => transport_text(context@, detail@),
        ProviderError::Protocol { context, status, body } => protocol_text(context@, status, body@),
        ProviderError::Parse { context, detail } => transport_text(context@, detail@),
        ProviderError::Credentials { detail } => credentials_text(detail@),
    }
}

impl ProviderError {
    /// The error's text.
    pub fn message(&self) -> (r: String)
        ensures
            r@ == error_text(*self),
    {
        match self {
            ProviderError::Transport { context, detail } | ProviderError::Parse { context, detail } => {
                let mut out = context.clone();
                out.append(": ");
                out.append(detail.as_str());
                out
            },
            ProviderError::Protocol { context, status, body } => {
                let mut out = context.clone();
                out.append(" failed: ");
                push_decimal(&mut out, *status as u64);
                out.append(" - ");
                out.append(body.as_str());
                out
            },
            ProviderError::Credentials { detail } => {
                let mut out = String::new();
                out.append("credential retrieval failed: ");
                out.append(detail.as_str());
                proof {
                    assert(out@ =~= credentials_text(detail@));
                }
                out
            },
        }
    }
}

/// Whether an HTTP status code reports success (the 2xx class).
pub open spec fn is_success_status(status: u16) -> bool {
    200 <= status && status <= 299
}

/// Accepts a backend's answer when its status code reports success, and
/// otherwise reports the status code and the body as a protocol error.
pub fn check_response(context: &str, status: u16, body: String) -> (r: Result<String, ProviderError>)
    ensures
        is_success_status(status) ==> r == Ok::<String, ProviderError>(body),
        !is_success_status(status) ==> (r matches Err(ProviderError::Protocol { context: c, status: s, body: b })
            && c@ == context@ && s == status && b == body),
{
    if 200 <= status && status <= 299 {
        Ok(body)
    } else {
        Err(ProviderError::Protocol { context: context.to_owned(), status, body })
    }
}

/// The delivery state for a backend's case-folded free-text state.
pub open spec fn rest_state_spec(folded: Seq<char>) -> DeliveryState {
    if folded == "delivered"@ || folded == "accepted"@ {
        DeliveryState::Delivered
    } else if folded == "failed"@ || folded == "rejected"@ {
        DeliveryState::Failed
    } else if folded == "in_transit"@ || folded == "sending"@ {
        DeliveryState::InFlight
    } else {
        DeliveryState::Pending
    }
}

/// Maps a case-folded state string of the REST backend onto a delivery state.
pub fn rest_state_from_folded(folded: &str) -> (r: DeliveryState)
    ensures
        r == rest_state_spec(folded@),
{
    if text_eq(folded, "delivered") || text_eq(folded, "accepted") {
        DeliveryState::Delivered
    } else if text_eq(folded, "failed") || text_eq(folded, "rejected") {
        DeliveryState::Failed
    } else if text_eq(folded, "in_transit") || text_eq(folded, "sending") {
        DeliveryState::InFlight
    } else {
        DeliveryState::Pending
    }
}

/// Maps a state string of the REST backend, in any letter case, onto a delivery state.
pub fn rest_state(raw: &str) -> (r: DeliveryState)
    ensures
        r == rest_state_spec(lower_of(raw@)),
{
    let folded = to_lowercase(raw);
    rest_state_from_folded(folded.as_str())
}

/// The REST backend's case-folded state strings map as follows; any other
/// string is pending.
pub proof fn lemma_rest_mapping()
    ensures
        rest_state_spec("delivered"@) == DeliveryState::Delivered,
        rest_state_spec("accepted"@) == DeliveryState::Delivered,
        rest_state_spec("failed"@) == DeliveryState::Failed,
        rest_state_spec("rejected"@) == DeliveryState::Failed,
        rest_state_spec("in_transit"@) == DeliveryState::InFlight,
        rest_state_spec("sending"@) == DeliveryState::InFlight,
        rest_state_spec("unknown"@) == DeliveryState::Pending,
{
    reveal_strlit("delivered");
    reveal_strlit("accepted");
    reveal_strlit("failed");
    reveal_strlit("rejected");
    reveal_strlit("in_transit");
    reveal_strlit("sending");
    reveal_strlit("unknown");
    assert("failed"@.len() != "delivered"@.len());
    assert("failed"@.len() != "accepted"@.len());
    assert("rejected"@.len() != "delivered"@.len());
    assert("rejected"@[0] != "accepted"@[0]);
    assert("in_transit"@.len() != "delivered"@.len());
    assert("in_transit"@.len() != "accepted"@.len());
    assert("in_transit"@.len() != "failed"@.len());
    assert("in_transit"@.len() != "rejected"@.len());
    assert("sending"@.len() != "delivered"@.len());
    assert("sending"@.len() != "accepted"@.len());
    assert("sending"@.len() != "failed"@.len());
    assert("sending"@.len() != "rejected"@.len());
    assert("unknown"@.len() != "delivered"@.len());
    assert("unknown"@.len() != "accepted"@.len());
    assert("unknown"@.len() != "failed"@.len());
    assert("unknown"@.len() != "rejected"@.len());
    assert("unknown"@.len() != "in_transit"@.len());
    assert("unknown"@[0] != "sending"@[0]);
}

} // verus!
