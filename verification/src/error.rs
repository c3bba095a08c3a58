//! What can go wrong when a heartbeat is recorded.
use vstd::prelude::*;

verus! {

/// Errors of heartbeating.
#[derive(Debug, Clone, Copy, PartialEq, Eq, Structural)]
pub enum ActivityHeartbeatError {
    /// The heartbeat is for an activity that is not known to run. It may be over already.
    UnknownActivity,
    /// A heartbeat timeout is set but cannot be read. Heartbeating needs one that can.
    InvalidHeartbeatTimeout,
}

impl ActivityHeartbeatError {
    /// The error in words.
    pub fn message(&self) -> (r: &'static str)
        ensures
            r@ == (match *self {
                ActivityHeartbeatError::UnknownActivity =>
                    "Heartbeat has been sent for activity that either completed or never started on this worker."@,
                ActivityHeartbeatError::InvalidHeartbeatTimeout =>
                    "Unable to parse activity heartbeat timeout."@,
            }),
    {
        match self {
            ActivityHeartbeatError::UnknownActivity =>
                "Heartbeat has been sent for activity that either completed or never started on this worker.",
            ActivityHeartbeatError::InvalidHeartbeatTimeout =>
                "Unable to parse activity heartbeat timeout.",
        }
    }
}

} // verus!
