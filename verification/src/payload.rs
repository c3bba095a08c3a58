//! The details that an activity attaches to a heartbeat.
use std::collections::HashMap;
use vstd::prelude::*;

verus! {

/// The size of one payload that is stored elsewhere.
#[derive(Debug)]
pub struct ExternalPayloadDetails {
    pub size_bytes: i64,
}

/// One encoded value. Heartbeating carries payloads and never looks into them.
#[derive(Debug)]
pub struct Payload {
    pub metadata: HashMap<String, Vec<u8>>,
    pub data: Vec<u8>,
    pub external_payloads: Vec<ExternalPayloadDetails>,
}

/// The payloads of one request.
#[derive(Debug)]
pub struct Payloads {
    pub payloads: Vec<Payload>,
}

/// The form in which a request carries `details`: absent when there are none, and else all of them
/// in their order.
pub fn into_payloads(details: Vec<Payload>) -> (r: Option<Payloads>)
    ensures
        r == (if details@.len() == 0 {
            None
        } else {
            Some(Payloads { payloads: details })
        }),
{
    if details.is_empty() {
        None
    } else {
        Some(Payloads { payloads: details })
    }
}

} // verus!
