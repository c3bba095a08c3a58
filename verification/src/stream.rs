//! The state of the heartbeat stream, and what it does with each event.
use crate::action::{Event, HeartbeatAction, HeartbeatExecutorAction, ValidActivityHeartbeat, job_of};
use crate::clock::Clock;
use crate::model::{Stream, law_next_keeps_inv, timer_of};
use crate::signals::{Signal, Signals, clone_token, lemma_push, new_token};
use crate::state::ActivityHeartbeatState;
use crate::task_token::TaskToken;
use crate::token_map::TokenMap;
use std::sync::Arc;
use std::time::Instant;
use tokio::sync::Notify;
use tokio_util::sync::CancellationToken;
use vstd::prelude::*;

verus! {

/// Keeps track of the tasks that send heartbeats, and decides when to report them.
pub struct HeartbeatStreamState {
    tt_to_state: TokenMap<ActivityHeartbeatState>,
    tt_needs_flush: TokenMap<Arc<Notify>>,
    /// Ends the whole stream when cancelled. Reports under way are not cancelled with it.
    cancellation_token: CancellationToken,
    clock: Clock,
    signals: Signals,
}

/// What the stream finds when it waits for the next event.
#[derive(Debug)]
pub enum Incoming {
    /// The stream's token was cancelled. This goes before an event that has come in as well.
    ShutdownRequested,
    /// All senders of events are gone.
    Disconnected,
    /// An event came in.
    Received(HeartbeatAction),
}

/// What the stream does next.
#[derive(Debug)]
pub enum StreamStep {
    /// The stream is over.
    Finished,
    /// The stream goes on, and hands out a job if there is one.
    Continue(Option<HeartbeatExecutorAction>),
}

impl View for HeartbeatStreamState {
    type V = Stream;

    closed spec fn view(&self) -> Stream {
        Stream {
            tasks: self.tt_to_state@,
            flushing: self.tt_needs_flush@,
            signals: self.signals@,
            shutdown: self.cancellation_token,
        }
    }
}

impl HeartbeatStreamState {
    /// The maps hold no token twice, and the stream is in order.
    pub closed spec fn wf(&self) -> bool {
        &&& self.tt_to_state.wf()
        &&& self.tt_needs_flush.wf()
        &&& self@.inv()
    }

    /// The readings of the clock that the stream has taken so far.
    pub closed spec fn readings(&self) -> Seq<u128> {
        self.clock@
    }

    /// The moment that the readings count from.
    pub closed spec fn clock_origin(&self) -> Instant {
        self.clock.origin()
    }

    /// The clock is the one that `pre` has, and was not read since.
    pub open spec fn same_clock(&self, pre: &Self) -> bool {
        self.clock_origin() == pre.clock_origin() && self.readings() == pre.readings()
    }

    /// The clock is the one that `pre` has, and was read once since. It did not go back.
    pub open spec fn read_clock_once(&self, pre: &Self) -> bool {
        &&& self.clock_origin() == pre.clock_origin()
        &&& self.readings().len() > 0
        &&& self.readings() == pre.readings().push(self.readings().last())
        &&& pre.readings().len() > 0 ==> pre.readings().last() <= self.readings().last()
    }

    /// A well-formed state is in order, so that the laws of the stream hold of it.
    pub proof fn lemma_wf(&self)
        requires
            self.wf(),
        ensures
            self@.inv(),
    {
    }

    /// The view shows what the state holds: the tasks and evictions in its maps, the calls that its
    /// handles were called with, and the readings of its own clock.
    proof fn lemma_view(&self)
        ensures
            self@.tasks == self.tt_to_state@,
            self@.flushing == self.tt_needs_flush@,
            self@.signals == self.signals@,
            self@.shutdown == self.cancellation_token,
            self.readings() == self.clock@,
            self.clock_origin() == self.clock.origin(),
    {
    }

    /// Between two states whose clock was read once lies one reading of the same clock, which is not
    /// below the one before it.
    pub proof fn law_one_reading(&self, pre: &Self)
        requires
            self.read_clock_once(pre),
        ensures
            self.clock_origin() == pre.clock_origin(),
            self.readings().len() == pre.readings().len() + 1,
            pre.readings() == self.readings().drop_last(),
            pre.readings().len() > 0 ==> pre.readings().last() <= self.readings().last(),
    {
        assert(pre.readings() =~= self.readings().drop_last());
    }

    /// Between two states with the same clock lies no reading.
    pub proof fn law_no_reading(&self, pre: &Self)
        requires
            self.same_clock(pre),
        ensures
            self.clock_origin() == pre.clock_origin(),
            self.readings() == pre.readings(),
    {
    }

    /// A stream that tracks nothing, and the token that ends it.
    pub fn new() -> (r: (Self, CancellationToken))
        ensures
            r.0.wf(),
            r.0.readings() == Seq::<u128>::empty(),
            r.0@ == (Stream {
                tasks: Map::empty(),
                flushing: Map::empty(),
                signals: Seq::empty(),
                shutdown: r.1,
            }),
    {
        let cancellation_token = new_token();
        let shutdown = clone_token(&cancellation_token);
        (
            HeartbeatStreamState {
                tt_to_state: TokenMap::new(),
                tt_needs_flush: TokenMap::new(),
                cancellation_token,
                clock: Clock::start(),
                signals: Signals::new(),
            },
            shutdown,
        )
    }

    /// Records a heartbeat that came in when the clock showed `now`.
    pub fn record_at(&mut self, hb: ValidActivityHeartbeat, now: u128) -> (r: Option<
        HeartbeatExecutorAction,
    >)
        requires
            old(self).wf(),
        ensures
            final(self).wf(),
            final(self).same_clock(old(self)),
            (final(self)@, job_of(r)) == old(self)@.record(
                hb.task_token@,
                hb.details,
                hb.throttle_interval,
                hb.timeout_resetter,
                now,
            ),
    {
        proof {
            law_next_keeps_inv(self@, hb@, now, arbitrary());
        }
        let ghost wanted = self@.next(hb@, now, arbitrary()).0;
        match self.tt_to_state.remove(&hb.task_token) {
            None => {
                let state = ActivityHeartbeatState {
                    throttle_interval: hb.throttle_interval,
                    last_send_requested: now,
                    // These details are reported right away. None marks that the task can be
                    // forgotten after throttling.
                    last_recorded_details: None,
                    is_record_in_flight: true,
                    throttled_cancellation_token: None,
                    timeout_resetter: hb.timeout_resetter,
                };
                self.tt_to_state.insert(hb.task_token.clone(), state);
                assert(self@ =~= wanted);
                Some(
                    HeartbeatExecutorAction::Report {
                        task_token: hb.task_token,
                        details: hb.details,
                    },
                )
            },
            Some(mut state) => {
                state.last_recorded_details = Some(hb.details);
                state.timeout_resetter = hb.timeout_resetter;
                self.tt_to_state.insert(hb.task_token, state);
                assert(self@ =~= wanted);
                None
            },
        }
    }

    /// Records a heartbeat that comes in now.
    pub fn record(&mut self, hb: ValidActivityHeartbeat) -> (r: Option<HeartbeatExecutorAction>)
        requires
            old(self).wf(),
        ensures
            final(self).wf(),
            final(self).read_clock_once(old(self)),
            (final(self)@, job_of(r)) == old(self)@.record(
                hb.task_token@,
                hb.details,
                hb.throttle_interval,
                hb.timeout_resetter,
                final(self).readings().last(),
            ),
    {
        let now = self.clock.now();
        self.record_at(hb, now)
    }

    /// A report to the server was over when the clock showed `now`.
    pub fn handle_report_completed_at(&mut self, tt: TaskToken, now: u128) -> (r: Option<
        HeartbeatExecutorAction,
    >)
        requires
            old(self).wf(),
        ensures
            final(self).wf(),
            final(self).same_clock(old(self)),
            (final(self)@, job_of(r)) == old(self)@.report_completed(
                tt@,
                now,
                timer_of(job_of(r)),
            ),
            r is Some ==> old(self)@.is_new(timer_of(job_of(r))),
    {
        let ghost pre = self@;
        if let Some(on_complete) = self.tt_needs_flush.remove(&tt) {
            proof {
                lemma_push(self.signals@, Signal::Notified(on_complete));
            }
            self.signals.notify_one(&on_complete);
        }
        assert(self@ =~= pre.flushed(tt@));
        let ghost mid = self@;
        match self.tt_to_state.remove(&tt) {
            Some(mut st) => {
                st.is_record_in_flight = false;
                let timer = self.signals.child_token(&self.cancellation_token);
                st.throttled_cancellation_token = Some(clone_token(&timer));
                if let Some(resetter) = &st.timeout_resetter {
                    self.signals.notify_one(resetter);
                }
                // Always sleep for simplicity, even for no time at all.
                let nanos = st.get_throttle_sleep_duration(now);
                let token = tt.clone();
                self.tt_to_state.insert(tt, st);
                proof {
                    assert(self@ =~= mid.throttled(tt@, timer));
                    law_next_keeps_inv(pre, Event::CompleteReport { token: tt@ }, now, timer);
                }
                Some(HeartbeatExecutorAction::Sleep(token, nanos, timer))
            },
            None => {
                proof {
                    assert(self@ =~= mid);
                    law_next_keeps_inv(pre, Event::CompleteReport { token: tt@ }, now, arbitrary());
                }
                None
            },
        }
    }

    /// A report to the server is over now.
    pub fn handle_report_completed(&mut self, tt: TaskToken) -> (r: Option<
        HeartbeatExecutorAction,
    >)
        requires
            old(self).wf(),
        ensures
            final(self).wf(),
            final(self).read_clock_once(old(self)),
            (final(self)@, job_of(r)) == old(self)@.report_completed(
                tt@,
                final(self).readings().last(),
                timer_of(job_of(r)),
            ),
            r is Some ==> old(self)@.is_new(timer_of(job_of(r))),
    {
        let now = self.clock.now();
        self.handle_report_completed_at(tt, now)
    }

    /// A throttle timer ran out when the clock showed `now`: report, or stop tracking the task.
    pub fn handle_throttle_completed_at(&mut self, tt: TaskToken, now: u128) -> (r: Option<
        HeartbeatExecutorAction,
    >)
        requires
            old(self).wf(),
        ensures
            final(self).wf(),
            final(self).same_clock(old(self)),
            (final(self)@, job_of(r)) == old(self)@.throttle_completed(tt@, now),
    {
        let ghost event = Event::CompleteThrottle { token: tt@ };
        proof {
            law_next_keeps_inv(self@, event, now, arbitrary());
        }
        let ghost wanted = self@.next(event, now, arbitrary()).0;
        match self.tt_to_state.remove(&tt) {
            Some(mut state) => {
                match state.last_recorded_details.take() {
                    Some(details) => {
                        // The recorded details are gone before they are reported.
                        state.throttled_cancellation_token = None;
                        state.last_send_requested = now;
                        state.is_record_in_flight = true;
                        self.tt_to_state.insert(tt.clone(), state);
                        assert(self@ =~= wanted);
                        Some(HeartbeatExecutorAction::Report { task_token: tt, details })
                    },
                    // Nothing to report, forget the task.
                    None => None,
                }
            },
            None => {
                assert(self@ =~= wanted);
                None
            },
        }
    }

    /// A throttle timer runs out now.
    pub fn handle_throttle_completed(&mut self, tt: TaskToken) -> (r: Option<
        HeartbeatExecutorAction,
    >)
        requires
            old(self).wf(),
        ensures
            final(self).wf(),
            final(self).read_clock_once(old(self)),
            (final(self)@, job_of(r)) == old(self)@.throttle_completed(
                tt@,
                final(self).readings().last(),
            ),
    {
        let now = self.clock.now();
        self.handle_throttle_completed_at(tt, now)
    }

    /// The task is not to be tracked any more: its throttle timer, if it runs, is cancelled.
    ///
    /// Hands out a report when details are left and `should_flush` asks for them, so that the
    /// latest details reach the server before the task is forgotten.
    pub fn evict(&mut self, tt: TaskToken, on_complete: Arc<Notify>, should_flush: bool) -> (r:
        Option<HeartbeatExecutorAction>)
        requires
            old(self).wf(),
        ensures
            final(self).wf(),
            final(self).same_clock(old(self)),
            (final(self)@, job_of(r)) == old(self)@.evict(tt@, on_complete, should_flush),
    {
        let ghost pre = self@;
        let ghost event = Event::Evict { token: tt@, on_complete, should_flush };
        proof {
            law_next_keeps_inv(pre, event, 0, arbitrary());
        }
        let ghost wanted = pre.evict(tt@, on_complete, should_flush).0;
        if let Some(state) = self.tt_to_state.remove(&tt) {
            if let Some(timer) = state.throttled_cancellation_token {
                self.signals.cancel(&timer);
            }
            assert(self@ =~= pre.forgotten(tt@));
            match state.last_recorded_details {
                Some(details) if should_flush => {
                    self.tt_needs_flush.insert(tt.clone(), on_complete);
                    assert(self@ =~= wanted);
                    return Some(HeartbeatExecutorAction::Report { task_token: tt, details });
                },
                _ => {
                    if state.is_record_in_flight {
                        self.tt_needs_flush.insert(tt, on_complete);
                        assert(self@ =~= wanted);
                        return None;
                    }
                },
            }
        }
        assert(self@ =~= pre.forgotten(tt@));
        // Nothing is left to flush: report back at once that the eviction is over.
        self.signals.notify_one(&on_complete);
        assert(self@ =~= wanted);
        None
    }

    /// Takes in an event when the clock shows `now`.
    pub fn apply_at(&mut self, action: HeartbeatAction, now: u128) -> (r: Option<
        HeartbeatExecutorAction,
    >)
        requires
            old(self).wf(),
        ensures
            final(self).wf(),
            final(self).same_clock(old(self)),
            (final(self)@, job_of(r)) == old(self)@.next(action@, now, timer_of(job_of(r))),
            old(self)@.derives_timer(action@) ==> old(self)@.is_new(timer_of(job_of(r))),
    {
        match action {
            HeartbeatAction::SendHeartbeat(hb) => self.record_at(hb, now),
            HeartbeatAction::CompleteReport(tt) => self.handle_report_completed_at(tt, now),
            HeartbeatAction::CompleteThrottle(tt) => self.handle_throttle_completed_at(tt, now),
            HeartbeatAction::Evict { token, on_complete, should_flush } => self.evict(
                token,
                on_complete,
                should_flush,
            ),
        }
    }

    /// Goes one step: takes in an event that comes in now, or ends.
    pub fn advance(&mut self, incoming: Incoming) -> (r: StreamStep)
        requires
            old(self).wf(),
        ensures
            final(self).wf(),
            match incoming {
                Incoming::Received(action) => match r {
                    StreamStep::Continue(job) => {
                        &&& final(self).read_clock_once(old(self))
                        &&& (final(self)@, job_of(job)) == old(self)@.next(
                            action@,
                            final(self).readings().last(),
                            timer_of(job_of(job)),
                        )
                        &&& old(self)@.derives_timer(action@) ==> old(self)@.is_new(
                            timer_of(job_of(job)),
                        )
                    },
                    StreamStep::Finished => false,
                },
                Incoming::ShutdownRequested | Incoming::Disconnected => {
                    &&& r is Finished
                    &&& final(self)@ == old(self)@
                    &&& final(self).same_clock(old(self))
                },
            },
    {
        match incoming {
            Incoming::ShutdownRequested => StreamStep::Finished,
            Incoming::Disconnected => StreamStep::Finished,
            Incoming::Received(action) => {
                let now = self.clock.now();
                StreamStep::Continue(self.apply_at(action, now))
            },
        }
    }
}

} // verus!
