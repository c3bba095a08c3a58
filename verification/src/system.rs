//! The heartbeat stream together with the jobs that it has handed out.
//!
//! A job is outstanding from the moment it is handed out until it ends. The end of a report, and
//! that of a sleep which ran its time, come back to the stream as events; a sleep whose timer was
//! cancelled ends without one.
use crate::action::{Event, Job};
use crate::model::{Stream, law_next_keeps_inv};
use crate::signals::Signal;
use tokio_util::sync::CancellationToken;
use vstd::multiset::Multiset;
use vstd::prelude::*;

verus! {

/// The stream, its outstanding jobs, and the tasks that were ever evicted.
pub ghost struct System {
    pub stream: Stream,
    pub reports: Multiset<Seq<u8>>,
    pub sleeps: Multiset<(Seq<u8>, CancellationToken)>,
    pub evicted: Set<Seq<u8>>,
}

/// Something that happens to the system. `now` is what the clock shows, and `fresh` the throttle
/// timer that is derived where one is needed.
pub ghost enum Step {
    /// An activity sends a heartbeat, or is evicted.
    Request { event: Event, now: u128 },
    /// A report ends.
    ReportEnds { token: Seq<u8>, now: u128, fresh: CancellationToken },
    /// A sleep runs its time.
    SleepEnds { token: Seq<u8>, timer: CancellationToken, now: u128 },
    /// A sleep is cut short, because its timer was cancelled.
    SleepCancelled { token: Seq<u8>, timer: CancellationToken },
}

impl System {
    /// A stream that has just started.
    pub open spec fn initial(shutdown: CancellationToken) -> System {
        System {
            stream: Stream {
                tasks: Map::empty(),
                flushing: Map::empty(),
                signals: Seq::empty(),
                shutdown,
            },
            reports: Multiset::empty(),
            sleeps: Multiset::empty(),
            evicted: Set::empty(),
        }
    }

    /// The step can happen: only an outstanding job ends, and only a cancelled timer cuts a sleep
    /// short.
    pub open spec fn can(self, step: Step) -> bool {
        match step {
            Step::Request { event, .. } => event is SendHeartbeat || event is Evict,
            Step::ReportEnds { token, fresh, .. } => self.reports.count(token) > 0
                && self.stream.is_new(fresh),
            Step::SleepEnds { token, timer, .. } => self.sleeps.count((token, timer)) > 0,
            Step::SleepCancelled { token, timer } => self.sleeps.count((token, timer)) > 0
                && self.stream.signals.contains(Signal::Cancelled(timer)),
        }
    }

    /// The stream takes in `event`, and the job that it hands out is outstanding from then on.
    pub open spec fn deliver(self, event: Event, now: u128, fresh: CancellationToken) -> System {
        let (stream, job) = self.stream.next(event, now, fresh);
        System {
            stream,
            reports: match job {
                Some(Job::Report { token, .. }) => self.reports.insert(token),
                _ => self.reports,
            },
            sleeps: match job {
                Some(Job::Sleep { token, timer, .. }) => self.sleeps.insert((token, timer)),
                _ => self.sleeps,
            },
            evicted: if event is Evict {
                self.evicted.insert(event.task())
            } else {
                self.evicted
            },
        }
    }

    /// The system after `step`.
    pub open spec fn after(self, step: Step) -> System {
        match step {
            Step::Request { event, now } => self.deliver(event, now, self.stream.shutdown),
            Step::ReportEnds { token, now, fresh } => System {
                reports: self.reports.remove(token),
                ..self
            }.deliver(Event::CompleteReport { token }, now, fresh),
            Step::SleepEnds { token, timer, now } => System {
                sleeps: self.sleeps.remove((token, timer)),
                ..self
            }.deliver(Event::CompleteThrottle { token }, now, self.stream.shutdown),
            Step::SleepCancelled { token, timer } => System {
                sleeps: self.sleeps.remove((token, timer)),
                ..self
            },
        }
    }

    /// The job that the stream hands out in `step`, if any.
    pub open spec fn job(self, step: Step) -> Option<Job> {
        match step {
            Step::Request { event, now } => self.stream.next(event, now, self.stream.shutdown).1,
            Step::ReportEnds { token, now, fresh } => self.stream.next(
                Event::CompleteReport { token },
                now,
                fresh,
            ).1,
            Step::SleepEnds { token, now, .. } => self.stream.next(
                Event::CompleteThrottle { token },
                now,
                self.stream.shutdown,
            ).1,
            Step::SleepCancelled { .. } => None,
        }
    }

    /// Nothing is stuck:
    /// - a tracked task whose report is under way has an outstanding report;
    /// - a tracked task whose throttle timer runs has an outstanding sleep on that timer;
    /// - an eviction that waits for a report has an outstanding report to wait for.
    pub open spec fn nothing_stuck(self) -> bool {
        &&& forall|t: Seq<u8>| #[trigger]
            self.stream.tasks.contains_key(t) && self.stream.tasks[t].is_record_in_flight
                ==> self.reports.count(t) > 0
        &&& forall|t: Seq<u8>| #[trigger]
            self.stream.has_timer(t) ==> self.sleeps.count((t, self.stream.timer(t))) > 0
        &&& forall|t: Seq<u8>| #[trigger]
            self.stream.flushing.contains_key(t) ==> self.reports.count(t) > 0
    }

    /// `token` has one outstanding job if it is tracked, and none if it is not: a report while one
    /// is under way, and a sleep on its timer while it is throttled.
    pub open spec fn one_job(self, token: Seq<u8>) -> bool {
        let in_flight = self.stream.tasks.contains_key(token)
            && self.stream.tasks[token].is_record_in_flight;
        &&& self.reports.count(token) == (if in_flight {
            1nat
        } else {
            0nat
        })
        &&& forall|timer: CancellationToken|
            #![trigger self.sleeps.count((token, timer))]
            self.sleeps.count((token, timer)) == (if self.stream.has_timer(token)
                && self.stream.timer(token) == timer {
                1nat
            } else {
                0nat
            })
    }

    /// The stream is in order and nothing is stuck.
    pub open spec fn inv(self) -> bool {
        self.stream.inv() && self.nothing_stuck()
    }

    /// Every task that was never evicted has just the job that it needs.
    pub open spec fn orderly(self) -> bool {
        forall|t: Seq<u8>| #![trigger self.one_job(t)] !self.evicted.contains(t) ==> self.one_job(t)
    }
}

/// The system after all of `steps`, one after another.
pub open spec fn play(system: System, steps: Seq<Step>) -> System
    decreases steps.len(),
{
    if steps.len() == 0 {
        system
    } else {
        play(system, steps.drop_last()).after(steps.last())
    }
}

/// Each of `steps` can happen when its turn comes.
pub open spec fn playable(system: System, steps: Seq<Step>) -> bool
    decreases steps.len(),
{
    steps.len() > 0 ==> playable(system, steps.drop_last()) && play(
        system,
        steps.drop_last(),
    ).can(steps.last())
}

/// Every step that can happen keeps the stream in order and leaves nothing stuck.
pub proof fn law_step_leaves_nothing_stuck(system: System, step: Step)
    requires
        system.inv(),
        system.can(step),
    ensures
        system.after(step).inv(),
{
    let pre = system.stream;
    let post = system.after(step).stream;
    match step {
        Step::Request { event, now } => {
            law_next_keeps_inv(pre, event, now, pre.shutdown);
            let token = event.task();
            assert forall|t: Seq<u8>| t != token implies post.has_timer(t) == pre.has_timer(t)
                && post.timer(t) == pre.timer(t) by {}
            assert(post.has_timer(token) ==> pre.has_timer(token) && post.timer(token) == pre.timer(
                token,
            ));
        },
        Step::ReportEnds { token, now, fresh } => {
            law_next_keeps_inv(pre, Event::CompleteReport { token }, now, fresh);
            assert forall|t: Seq<u8>| t != token implies post.has_timer(t) == pre.has_timer(t)
                && post.timer(t) == pre.timer(t) by {}
        },
        Step::SleepEnds { token, timer, now } => {
            law_next_keeps_inv(pre, Event::CompleteThrottle { token }, now, pre.shutdown);
            assert forall|t: Seq<u8>| t != token implies post.has_timer(t) == pre.has_timer(t)
                && post.timer(t) == pre.timer(t) by {}
        },
        Step::SleepCancelled { token, timer } => {},
    }
}

/// Nothing is ever stuck: from the start on, whatever happens in whatever order, every tracked task
/// has a job outstanding that will come back for it, and every task with an eviction that waits has
/// a report outstanding, whose end tells the latest such eviction.
pub proof fn law_nothing_is_ever_stuck(shutdown: CancellationToken, steps: Seq<Step>)
    requires
        playable(System::initial(shutdown), steps),
    ensures
        play(System::initial(shutdown), steps).inv(),
    decreases steps.len(),
{
    if steps.len() > 0 {
        law_nothing_is_ever_stuck(shutdown, steps.drop_last());
        law_step_leaves_nothing_stuck(
            play(System::initial(shutdown), steps.drop_last()),
            steps.last(),
        );
    }
}

/// Every step that can happen keeps the jobs of the tasks that were never evicted in order.
pub proof fn law_step_keeps_one_job(system: System, step: Step)
    requires
        system.inv(),
        system.orderly(),
        system.can(step),
    ensures
        system.after(step).orderly(),
{
    let next = system.after(step);
    law_step_leaves_nothing_stuck(system, step);
    assert forall|t: Seq<u8>| !next.evicted.contains(t) implies #[trigger] next.one_job(t) by {
        assert(!system.evicted.contains(t));
        assert(system.one_job(t));
    }
}

/// A task that was never evicted never has more than one job outstanding: its next report is not
/// handed out before the last one is over and the throttling after it is too.
pub proof fn law_one_job_at_a_time(shutdown: CancellationToken, steps: Seq<Step>)
    requires
        playable(System::initial(shutdown), steps),
    ensures
        play(System::initial(shutdown), steps).orderly(),
    decreases steps.len(),
{
    if steps.len() > 0 {
        let before = play(System::initial(shutdown), steps.drop_last());
        law_nothing_is_ever_stuck(shutdown, steps.drop_last());
        law_one_job_at_a_time(shutdown, steps.drop_last());
        law_step_keeps_one_job(before, steps.last());
    }
}

/// An eviction that waits is told by the end of the report it waits for: that is the only one
/// outstanding for its task. It is the flush where details are flushed, and else the report that
/// was under way. Left out is an eviction that flushes while another report is under way; the
/// first of the two to end tells it.
pub proof fn law_eviction_waits_for_its_report(
    system: System,
    token: Seq<u8>,
    on_complete: std::sync::Arc<tokio::sync::Notify>,
    should_flush: bool,
    now: u128,
)
    requires
        system.inv(),
        system.orderly(),
        !system.evicted.contains(token),
        system.stream.tasks.contains_key(token),
        system.stream.flush_due(token, should_flush)
            != system.stream.tasks[token].is_record_in_flight,
    ensures
        ({
            let step = Step::Request {
                event: Event::Evict { token, on_complete, should_flush },
                now,
            };
            let next = system.after(step);
            &&& next.reports.count(token) == 1
            &&& next.stream.flushing.contains_key(token)
            &&& next.stream.flushing[token] == on_complete
        }),
{
    assert(system.one_job(token));
}

} // verus!
