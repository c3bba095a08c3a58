//! The heartbeat stream and its jobs, in time: a sleep lasts as long as it was asked to, and the
//! clock does not go back.
use crate::action::{Event, Job};
use crate::laws::{law_sleep_fills_the_interval, sent_by};
use crate::system::{
    Step, System, law_step_keeps_one_job, law_step_leaves_nothing_stuck,
};
use tokio_util::sync::CancellationToken;
use vstd::prelude::*;

verus! {

/// A report that was handed out: for which task, when, and under which throttle interval.
pub ghost struct Dispatch {
    pub token: Seq<u8>,
    pub at: u128,
    /// The interval of the heartbeat that started the tracking of the task.
    pub interval: u128,
}

/// The system with its clock.
pub ghost struct Timed {
    pub system: System,
    /// The latest reading of the clock.
    pub now: u128,
    /// For each sleep that was handed out, by its task and timer, when it is due to end.
    pub due: Map<(Seq<u8>, CancellationToken), int>,
    /// For each task, the throttle interval of the heartbeat that last started its tracking.
    pub started: Map<Seq<u8>, u128>,
    /// The reports that were handed out, in their order.
    pub dispatches: Seq<Dispatch>,
}

impl Timed {
    /// A stream that has just started, and its clock with it.
    pub open spec fn initial(shutdown: CancellationToken) -> Timed {
        Timed {
            system: System::initial(shutdown),
            now: 0,
            due: Map::empty(),
            started: Map::empty(),
            dispatches: Seq::empty(),
        }
    }

    /// What the clock shows when the step happens. A sleep that is cut short is no event for the
    /// stream, and the clock is not read.
    pub open spec fn time_of(self, step: Step) -> u128 {
        match step {
            Step::Request { now, .. } => now,
            Step::ReportEnds { now, .. } => now,
            Step::SleepEnds { now, .. } => now,
            Step::SleepCancelled { .. } => self.now,
        }
    }

    /// The step can happen: the system allows it, the clock has not gone back, and a sleep that
    /// runs its time is due.
    pub open spec fn can(self, step: Step) -> bool {
        &&& self.system.can(step)
        &&& self.now <= self.time_of(step)
        &&& step matches Step::SleepEnds { token, timer, now } ==> self.due[(token, timer)] <= now
    }

    /// The step is a heartbeat that starts the tracking of its task.
    pub open spec fn starts(self, step: Step) -> bool {
        step matches Step::Request { event, .. } && event is SendHeartbeat
            && !self.system.stream.tasks.contains_key(event.task())
    }

    /// The throttle intervals of the tasks after `step`.
    pub open spec fn started_after(self, step: Step) -> Map<Seq<u8>, u128> {
        if self.starts(step) {
            self.started.insert(
                step->Request_event.task(),
                step->Request_event->throttle_interval,
            )
        } else {
            self.started
        }
    }

    /// The system and its clock after `step`.
    pub open spec fn after(self, step: Step) -> Timed {
        let now = self.time_of(step);
        let started = self.started_after(step);
        Timed {
            system: self.system.after(step),
            now,
            due: match self.system.job(step) {
                Some(Job::Sleep { token, nanos, timer }) => self.due.insert(
                    (token, timer),
                    now + nanos,
                ),
                _ => self.due,
            },
            started,
            dispatches: match self.system.job(step) {
                Some(Job::Report { token, .. }) => self.dispatches.push(
                    Dispatch { token, at: now, interval: started[token] },
                ),
                _ => self.dispatches,
            },
        }
    }

    /// The earliest moment at which the next report for `token` can be handed out.
    pub open spec fn earliest(self, token: Seq<u8>) -> int {
        let stream = self.system.stream;
        if !stream.tasks.contains_key(token) {
            self.now as int
        } else if stream.has_timer(token) {
            self.due[(token, stream.timer(token))]
        } else {
            stream.tasks[token].last_send_requested + stream.tasks[token].throttle_interval
        }
    }

    /// Every two reports of a task that was never evicted are apart by at least the interval that
    /// the earlier one was handed out under.
    pub open spec fn spaced(self) -> bool {
        forall|i: int, j: int|
            #![trigger self.dispatches[i], self.dispatches[j]]
            0 <= i < j < self.dispatches.len() && self.dispatches[i].token
                == self.dispatches[j].token && !self.system.evicted.contains(
                self.dispatches[i].token,
            ) ==> self.dispatches[i].at + self.dispatches[i].interval <= self.dispatches[j].at
    }

    /// What holds at all times:
    /// - the system is in order, and no report was handed out in the future;
    /// - a tracked task keeps the interval of the heartbeat that started its tracking;
    /// - the next report of a task that was never evicted comes no sooner than the intervals of all
    ///   its earlier reports allow, and those reports are spaced.
    pub open spec fn inv(self) -> bool {
        &&& self.system.inv()
        &&& self.system.orderly()
        &&& sent_by(self.system.stream, self.now)
        &&& forall|t: Seq<u8>| #[trigger]
            self.system.stream.tasks.contains_key(t)
                ==> self.system.stream.tasks[t].throttle_interval == self.started[t]
        &&& forall|i: int|
            0 <= i < self.dispatches.len() && !self.system.evicted.contains(
                (#[trigger] self.dispatches[i]).token,
            ) ==> self.dispatches[i].at + self.dispatches[i].interval <= self.earliest(
                self.dispatches[i].token,
            )
        &&& self.spaced()
    }
}

/// The system and its clock after all of `steps`, one after another.
pub open spec fn play_timed(timed: Timed, steps: Seq<Step>) -> Timed
    decreases steps.len(),
{
    if steps.len() == 0 {
        timed
    } else {
        play_timed(timed, steps.drop_last()).after(steps.last())
    }
}

/// Each of `steps` can happen when its turn comes.
pub open spec fn playable_timed(timed: Timed, steps: Seq<Step>) -> bool
    decreases steps.len(),
{
    steps.len() > 0 ==> playable_timed(timed, steps.drop_last()) && play_timed(
        timed,
        steps.drop_last(),
    ).can(steps.last())
}

/// The moment at which the next report of a task can be handed out never comes nearer; and a report
/// that is handed out comes no sooner.
proof fn lemma_earliest(timed: Timed, step: Step, t: Seq<u8>)
    requires
        timed.inv(),
        timed.can(step),
        !timed.after(step).system.evicted.contains(t),
    ensures
        ({
            let next = timed.after(step);
            match timed.system.job(step) {
                Some(Job::Report { token, .. }) if token == t => {
                    &&& timed.earliest(t) <= next.now
                    &&& next.earliest(t) == next.now + next.started[t]
                },
                _ => timed.earliest(t) <= next.earliest(t),
            }
        }),
{
    let next = timed.after(step);
    let pre = timed.system.stream;
    let post = next.system.stream;
    assert(!timed.system.evicted.contains(t));
    assert(timed.system.one_job(t));
    law_step_leaves_nothing_stuck(timed.system, step);
    match step {
        Step::Request { event, now } => {
            assert(post.has_timer(t) ==> pre.has_timer(t) && post.timer(t) == pre.timer(t));
        },
        Step::ReportEnds { token, now, fresh } => {
            if token == t {
                law_sleep_fills_the_interval(pre.tasks[t], now as int);
                assert(next.due[(t, fresh)] == now + pre.tasks[t].sleep_at(now as int));
            } else {
                assert(post.has_timer(t) == pre.has_timer(t) && post.timer(t) == pre.timer(t));
            }
        },
        Step::SleepEnds { token, timer, now } => {
            if token != t {
                assert(post.has_timer(t) == pre.has_timer(t) && post.timer(t) == pre.timer(t));
            } else {
                assert(timed.system.sleeps.count((t, timer)) > 0);
            }
        },
        Step::SleepCancelled { .. } => {},
    }
}

/// Every step that can happen in time keeps the reports in order.
pub proof fn law_step_keeps_reports_spaced(timed: Timed, step: Step)
    requires
        timed.inv(),
        timed.can(step),
    ensures
        timed.after(step).inv(),
{
    let next = timed.after(step);
    law_step_leaves_nothing_stuck(timed.system, step);
    law_step_keeps_one_job(timed.system, step);
    let count = timed.dispatches.len();
    assert forall|i: int| 0 <= i < count implies #[trigger] next.dispatches[i]
        == timed.dispatches[i] by {}
    assert forall|i: int|
        0 <= i < next.dispatches.len() && !next.system.evicted.contains(
            (#[trigger] next.dispatches[i]).token,
        ) implies next.dispatches[i].at + next.dispatches[i].interval <= next.earliest(
        next.dispatches[i].token,
    ) by {
        lemma_earliest(timed, step, next.dispatches[i].token);
    }
    assert forall|i: int, j: int|
        #![trigger next.dispatches[i], next.dispatches[j]]
        0 <= i < j < next.dispatches.len() && next.dispatches[i].token == next.dispatches[j].token
            && !next.system.evicted.contains(
            next.dispatches[i].token,
        ) implies next.dispatches[i].at + next.dispatches[i].interval <= next.dispatches[j].at by {
        assert(next.dispatches[i] == timed.dispatches[i]);
        if j < count {
            assert(next.dispatches[j] == timed.dispatches[j]);
        } else {
            lemma_earliest(timed, step, next.dispatches[i].token);
        }
    }
}

/// From the start on, whatever happens in whatever order, any two reports of a task that was never
/// evicted are handed out at least one throttle interval apart, however long the reports take. The
/// interval is that of the heartbeat that started the tracking under which the earlier one was
/// handed out; later heartbeats do not change it.
pub proof fn law_reports_are_always_spaced(shutdown: CancellationToken, steps: Seq<Step>)
    requires
        playable_timed(Timed::initial(shutdown), steps),
    ensures
        play_timed(Timed::initial(shutdown), steps).inv(),
        play_timed(Timed::initial(shutdown), steps).spaced(),
    decreases steps.len(),
{
    if steps.len() > 0 {
        let before = play_timed(Timed::initial(shutdown), steps.drop_last());
        law_reports_are_always_spaced(shutdown, steps.drop_last());
        law_step_keeps_reports_spaced(before, steps.last());
    }
}

} // verus!
