//! The heartbeat stream as a state machine: what each event does to the tracked tasks, which calls
//! it makes on shared handles, and which job it hands out.
use crate::action::{Event, Job};
use crate::payload::Payload;
use crate::signals::{Signal, lemma_derived, lemma_push, was_derived};
use crate::state::ActivityHeartbeatState;
use std::sync::Arc;
use tokio::sync::Notify;
use tokio_util::sync::CancellationToken;
use vstd::prelude::*;

verus! {

/// The state of the heartbeat stream.
#[verifier::ext_equal]
pub ghost struct Stream {
    /// The tasks that heartbeats are tracked for.
    pub tasks: Map<Seq<u8>, ActivityHeartbeatState>,
    /// The evicted tasks that a report is still under way for, each with the notifier that waits
    /// for its end.
    pub flushing: Map<Seq<u8>, Arc<Notify>>,
    /// The calls made on shared handles so far.
    pub signals: Seq<Signal>,
    /// Ends the stream when cancelled. Every throttle timer is derived from it.
    pub shutdown: CancellationToken,
}

/// How long to sleep when `elapsed` has passed of `interval`: the rest of the interval, of which
/// nothing is left when it is over.
pub open spec fn throttle_sleep(interval: int, elapsed: int) -> int {
    if 0 <= elapsed < interval {
        interval - elapsed
    } else {
        0
    }
}

/// The time from `earlier` to `now`, which is zero for a clock that ran backwards.
pub open spec fn elapsed(earlier: int, now: int) -> int {
    if now > earlier {
        now - earlier
    } else {
        0
    }
}

impl Stream {
    /// What holds of the stream at all times:
    /// - a tracked task has a report under way or a throttle timer, and never both;
    /// - every timer was derived from the token that ends the stream, no call cancelled one of its
    ///   own (all of them end when the stream's token is cancelled), and no two tasks share one;
    /// - the stream has cancelled nothing but timers.
    pub open spec fn inv(self) -> bool {
        &&& forall|t: Seq<u8>| #[trigger]
            self.tasks.contains_key(t) ==> (self.tasks[t].is_record_in_flight
                <==> self.tasks[t].throttled_cancellation_token is None)
        &&& forall|t: Seq<u8>| #[trigger] self.has_timer(t) ==> self.timer_runs(self.timer(t))
        &&& forall|t: Seq<u8>, u: Seq<u8>|
            #![trigger self.has_timer(t), self.has_timer(u)]
            self.has_timer(t) && self.has_timer(u) && t != u ==> self.timer(t) != self.timer(u)
        &&& forall|c: CancellationToken| #[trigger]
            self.signals.contains(Signal::Cancelled(c)) ==> was_derived(self.signals, c)
    }

    /// `timer` was derived from the token that ends the stream, and was not cancelled on its own.
    pub open spec fn timer_runs(self, timer: CancellationToken) -> bool {
        &&& self.signals.contains(Signal::Derived { parent: self.shutdown, child: timer })
        &&& !self.signals.contains(Signal::Cancelled(timer))
    }

    /// The task is tracked and its throttle timer runs.
    pub open spec fn has_timer(self, token: Seq<u8>) -> bool {
        self.tasks.contains_key(token)
            && self.tasks[token].throttled_cancellation_token is Some
    }

    /// The throttle timer of a task that has one.
    pub open spec fn timer(self, token: Seq<u8>) -> CancellationToken {
        self.tasks[token].throttled_cancellation_token->0
    }

    /// A heartbeat came in at `now`. That of an unknown task is reported at once, with its details;
    /// that of a known one only replaces the details that are to be reported next.
    pub open spec fn record(
        self,
        token: Seq<u8>,
        details: Vec<Payload>,
        throttle_interval: u128,
        timeout_resetter: Option<Arc<Notify>>,
        now: u128,
    ) -> (Stream, Option<Job>) {
        if self.tasks.contains_key(token) {
            let task = ActivityHeartbeatState {
                last_recorded_details: Some(details),
                timeout_resetter,
                ..self.tasks[token]
            };
            (Stream { tasks: self.tasks.insert(token, task), ..self }, None)
        } else {
            let task = ActivityHeartbeatState {
                last_recorded_details: None,
                is_record_in_flight: true,
                last_send_requested: now,
                throttle_interval,
                throttled_cancellation_token: None,
                timeout_resetter,
            };
            (
                Stream { tasks: self.tasks.insert(token, task), ..self },
                Some(Job::Report { token, details }),
            )
        }
    }

    /// Whoever waits for the end of an evicted task's report is told of it.
    pub open spec fn flushed(self, token: Seq<u8>) -> Stream {
        if self.flushing.contains_key(token) {
            Stream {
                flushing: self.flushing.remove(token),
                signals: self.signals.push(Signal::Notified(self.flushing[token])),
                ..self
            }
        } else {
            self
        }
    }

    /// The report of a tracked task is over: its throttling starts, with `timer`, and its heartbeat
    /// timeout starts anew.
    pub open spec fn throttled(self, token: Seq<u8>, timer: CancellationToken) -> Stream {
        let task = ActivityHeartbeatState {
            is_record_in_flight: false,
            throttled_cancellation_token: Some(timer),
            ..self.tasks[token]
        };
        let derived = self.signals.push(Signal::Derived { parent: self.shutdown, child: timer });
        Stream {
            tasks: self.tasks.insert(token, task),
            signals: match task.timeout_resetter {
                Some(resetter) => derived.push(Signal::Notified(resetter)),
                None => derived,
            },
            ..self
        }
    }

    /// A report was over at `now`. An eviction that waited for it is told. A task that is tracked
    /// sleeps for the rest of its throttle interval.
    pub open spec fn report_completed(
        self,
        token: Seq<u8>,
        now: u128,
        timer: CancellationToken,
    ) -> (Stream, Option<Job>) {
        if self.tasks.contains_key(token) {
            (
                self.flushed(token).throttled(token, timer),
                Some(
                    Job::Sleep {
                        token,
                        nanos: self.tasks[token].sleep_at(now as int) as u128,
                        timer,
                    },
                ),
            )
        } else {
            (self.flushed(token), None)
        }
    }

    /// A throttle timer ran out at `now`. Details that came in meanwhile are reported; a task
    /// without any is forgotten.
    pub open spec fn throttle_completed(self, token: Seq<u8>, now: u128) -> (Stream, Option<Job>) {
        if !self.tasks.contains_key(token) {
            (self, None)
        } else {
            match self.tasks[token].last_recorded_details {
                Some(details) => {
                    let task = ActivityHeartbeatState {
                        last_recorded_details: None,
                        is_record_in_flight: true,
                        last_send_requested: now,
                        throttled_cancellation_token: None,
                        ..self.tasks[token]
                    };
                    (
                        Stream { tasks: self.tasks.insert(token, task), ..self },
                        Some(Job::Report { token, details }),
                    )
                },
                None => (Stream { tasks: self.tasks.remove(token), ..self }, None),
            }
        }
    }

    /// The task is no longer tracked, and its timer, if it runs, is cancelled.
    pub open spec fn forgotten(self, token: Seq<u8>) -> Stream {
        Stream {
            tasks: self.tasks.remove(token),
            signals: if self.has_timer(token) {
                self.signals.push(Signal::Cancelled(self.timer(token)))
            } else {
                self.signals
            },
            ..self
        }
    }

    /// Evicting the task hands out one more report: details wait to be reported, and they are
    /// wanted.
    pub open spec fn flush_due(self, token: Seq<u8>, should_flush: bool) -> bool {
        &&& should_flush
        &&& self.tasks.contains_key(token)
        &&& self.tasks[token].last_recorded_details is Some
    }

    /// A task is evicted. `on_complete` is told at once, unless a report has to end first.
    pub open spec fn evict(self, token: Seq<u8>, on_complete: Arc<Notify>, should_flush: bool) -> (
        Stream,
        Option<Job>,
    ) {
        let rest = self.forgotten(token);
        let waits = Stream { flushing: self.flushing.insert(token, on_complete), ..rest };
        if self.flush_due(token, should_flush) {
            (
                waits,
                Some(
                    Job::Report { token, details: self.tasks[token].last_recorded_details->0 },
                ),
            )
        } else if self.tasks.contains_key(token) && self.tasks[token].is_record_in_flight {
            (waits, None)
        } else {
            (Stream { signals: rest.signals.push(Signal::Notified(on_complete)), ..rest }, None)
        }
    }

    /// What `event` does when it is taken in at `now`. `timer` is the throttle timer that is
    /// derived where one is needed.
    pub open spec fn next(self, event: Event, now: u128, timer: CancellationToken) -> (
        Stream,
        Option<Job>,
    ) {
        match event {
            Event::SendHeartbeat { token, details, throttle_interval, timeout_resetter } =>
                self.record(token, details, throttle_interval, timeout_resetter, now),
            Event::Evict { token, on_complete, should_flush } =>
                self.evict(token, on_complete, should_flush),
            Event::CompleteReport { token } => self.report_completed(token, now, timer),
            Event::CompleteThrottle { token } => self.throttle_completed(token, now),
        }
    }

    /// `event` starts the throttling of a task, and with it a new timer.
    pub open spec fn derives_timer(self, event: Event) -> bool {
        event is CompleteReport && self.tasks.contains_key(event.task())
    }

    /// `timer` can be derived next: it is a new node of the cancellation tree.
    pub open spec fn is_new(self, timer: CancellationToken) -> bool {
        timer != self.shutdown && !was_derived(self.signals, timer)
    }
}

/// Every event keeps the stream in order, whatever the event and whenever it is taken in.
pub proof fn law_next_keeps_inv(pre: Stream, event: Event, now: u128, timer: CancellationToken)
    requires
        pre.inv(),
        pre.derives_timer(event) ==> pre.is_new(timer),
    ensures
        pre.next(event, now, timer).0.inv(),
{
    let post = pre.next(event, now, timer).0;
    let token = event.task();
    assert forall|t: Seq<u8>| t != token implies pre.has_timer(t) == post.has_timer(t) && pre.timer(
        t,
    ) == post.timer(t) by {}
    assert forall|t: Seq<u8>| pre.has_timer(t) implies was_derived(pre.signals, pre.timer(t)) by {
        lemma_derived(pre.signals, pre.shutdown, pre.timer(t));
    }
    match event {
        Event::SendHeartbeat { .. } => {
            assert(post.has_timer(token) ==> pre.has_timer(token));
        },
        Event::CompleteThrottle { .. } => {},
        Event::CompleteReport { .. } => {
            let mid = pre.flushed(token);
            if pre.flushing.contains_key(token) {
                lemma_push(pre.signals, Signal::Notified(pre.flushing[token]));
            }
            if pre.tasks.contains_key(token) {
                let derived = Signal::Derived { parent: pre.shutdown, child: timer };
                lemma_push(mid.signals, derived);
                if let Some(resetter) = pre.tasks[token].timeout_resetter {
                    lemma_push(mid.signals.push(derived), Signal::Notified(resetter));
                }
            }
        },
        Event::Evict { on_complete, .. } => {
            let mid = pre.forgotten(token);
            if pre.has_timer(token) {
                lemma_push(pre.signals, Signal::Cancelled(pre.timer(token)));
            }
            lemma_push(mid.signals, Signal::Notified(on_complete));
        },
    }
}

/// The throttle timer that a job sleeps on, if it is a sleep.
pub open spec fn timer_of(job: Option<Job>) -> CancellationToken {
    job->0->timer
}

} // verus!
