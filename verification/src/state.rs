//! What is known of one task that heartbeats are tracked for.
use crate::model::{elapsed, throttle_sleep};
use crate::payload::Payload;
use std::sync::Arc;
use tokio::sync::Notify;
use tokio_util::sync::CancellationToken;
use vstd::prelude::*;

verus! {

/// The heartbeating state of one activity task. Times are in nanoseconds.
#[derive(Debug)]
pub struct ActivityHeartbeatState {
    /// The details to report next. Without any, the task is forgotten once throttling is over.
    pub last_recorded_details: Option<Vec<Payload>>,
    /// A report to the server was handed out and is not over yet.
    pub is_record_in_flight: bool,
    /// When the last report was handed out.
    pub last_send_requested: u128,
    pub throttle_interval: u128,
    pub throttled_cancellation_token: Option<CancellationToken>,
    pub timeout_resetter: Option<Arc<Notify>>,
}

impl ActivityHeartbeatState {
    /// How long throttling lasts that starts at `now`.
    pub open spec fn sleep_at(self, now: int) -> int {
        throttle_sleep(
            self.throttle_interval as int,
            elapsed(self.last_send_requested as int, now),
        )
    }

    /// How long to sleep from `now` on: what the time since the last report was handed out leaves
    /// of the throttle interval.
    pub fn get_throttle_sleep_duration(&self, now: u128) -> (r: u128)
        ensures
            r == self.sleep_at(now as int),
            ({
                let ready = self.last_send_requested + self.throttle_interval;
                &&& self.last_send_requested <= now < ready ==> now + r == ready
                &&& now >= ready ==> r == 0
                &&& now < self.last_send_requested ==> r == self.throttle_interval
            }),
    {
        let time_since_last_sent = now.saturating_sub(self.last_send_requested);
        if self.throttle_interval > time_since_last_sent {
            self.throttle_interval - time_since_last_sent
        } else {
            0
        }
    }
}

} // verus!
