//! The simulator backend: accepts every document under a random tracking
//! id and reports every transmission as delivered.

use vstd::prelude::*;
use std::sync::Arc;
use crate::boundary::{is_ascii_alphanumeric, random_alphanumeric};
use crate::delivery::{DeliveryState, DeliveryStatus, ProviderError};
use crate::text::opt_view;

verus! {

/// How long, in milliseconds, a simulated submission takes.
pub const SUBMIT_DELAY_MS: u64 = 200;

/// The simulator backend.
#[derive(Clone, Copy, Debug)]
pub struct MockClient;

impl MockClient {
    /// A shared simulator.
    pub fn new() -> (r: Arc<MockClient>) {
        Arc::new(MockClient)
    }

    /// Accepts the document under a fresh tracking id of sixteen random
    /// ASCII letters and digits.
    pub fn submit(&self, xml: &str, sender: &str, receiver: &str, profile: &str) -> (r: Result<String, ProviderError>)
        ensures
            r matches Ok(id) && id@.len() == 16
                && forall|i: int| 0 <= i < 16 ==> is_ascii_alphanumeric(#[trigger] id@[i]),
    {
        Ok(random_alphanumeric(16))
    }

    /// Reports the transmission as delivered.
    pub fn status(&self, transmission_id: &str) -> (r: Result<DeliveryStatus, ProviderError>)
        ensures
            r matches Ok(s) && s.transmission_id@ == transmission_id@
                && s.state == DeliveryState::Delivered
                && opt_view(s.message) == Some("Mock delivered"@),
    {
        Ok(DeliveryStatus {
            transmission_id: transmission_id.to_owned(),
            state: DeliveryState::Delivered,
            message: Some(String::from_str("Mock delivered")),
        })
    }
}

} // verus!
