//! What holds of the heartbeat stream as a whole.
use crate::action::{Event, Job};
use crate::model::Stream;
use crate::payload::Payload;
use crate::signals::{Signal, lemma_push};
use crate::state::ActivityHeartbeatState;
use std::sync::Arc;
use tokio::sync::Notify;
use tokio_util::sync::CancellationToken;
use vstd::prelude::*;

verus! {

/// An event together with what the clock shows when it is taken in, and the throttle timer that is
/// derived where one is needed.
pub ghost struct Input {
    pub event: Event,
    pub now: u128,
    pub timer: CancellationToken,
}

/// The stream after it has taken in all of `inputs`, one after another.
pub open spec fn run(stream: Stream, inputs: Seq<Input>) -> Stream
    decreases inputs.len(),
{
    if inputs.len() == 0 {
        stream
    } else {
        let input = inputs.last();
        run(stream, inputs.drop_last()).next(input.event, input.now, input.timer).0
    }
}

/// The job that is handed out for the input at position `i`.
pub open spec fn job_at(stream: Stream, inputs: Seq<Input>, i: int) -> Option<Job> {
    let input = inputs[i];
    run(stream, inputs.take(i)).next(input.event, input.now, input.timer).1
}

/// The details of the last heartbeat for `token` among `inputs`.
pub open spec fn last_sent(inputs: Seq<Input>, token: Seq<u8>) -> Option<Vec<Payload>>
    decreases inputs.len(),
{
    if inputs.len() == 0 {
        None
    } else {
        match inputs.last().event {
            Event::SendHeartbeat { token: t, details, .. } if t == token => Some(details),
            _ => last_sent(inputs.drop_last(), token),
        }
    }
}

/// Of all events for `token` among `inputs`, none is other than a heartbeat.
pub open spec fn only_heartbeats(inputs: Seq<Input>, token: Seq<u8>) -> bool {
    forall|i: int|
        0 <= i < inputs.len() && (#[trigger] inputs[i]).event.task() == token
            ==> inputs[i].event is SendHeartbeat
}

/// No event among `inputs` ends a report for `token` or evicts it.
pub open spec fn leaves_flush(inputs: Seq<Input>, token: Seq<u8>) -> bool {
    forall|i: int|
        0 <= i < inputs.len() && (#[trigger] inputs[i]).event.task() == token
            ==> !(inputs[i].event is CompleteReport) && !(inputs[i].event is Evict)
}

/// No event among `inputs` is a heartbeat for `token`.
pub open spec fn no_heartbeat(inputs: Seq<Input>, token: Seq<u8>) -> bool {
    forall|i: int|
        0 <= i < inputs.len() && (#[trigger] inputs[i]).event.task() == token
            ==> !(inputs[i].event is SendHeartbeat)
}

/// No event among `inputs` ends a report for `token`.
pub open spec fn no_report_end(inputs: Seq<Input>, token: Seq<u8>) -> bool {
    forall|i: int|
        0 <= i < inputs.len() && (#[trigger] inputs[i]).event.task() == token
            ==> !(inputs[i].event is CompleteReport)
}

/// Every tracked task's last report was handed out at `now` or before.
pub open spec fn sent_by(stream: Stream, now: u128) -> bool {
    forall|t: Seq<u8>| #[trigger]
        stream.tasks.contains_key(t) ==> stream.tasks[t].last_send_requested <= now
}

/// The first heartbeat of a task that is not tracked is reported at once, with its own details, and
/// the report is then under way.
pub proof fn law_first_heartbeat_is_reported(
    stream: Stream,
    token: Seq<u8>,
    details: Vec<Payload>,
    throttle_interval: u128,
    timeout_resetter: Option<Arc<Notify>>,
    now: u128,
)
    requires
        !stream.tasks.contains_key(token),
    ensures
        ({
            let (post, job) = stream.record(token, details, throttle_interval, timeout_resetter, now);
            &&& job == Some(Job::Report { token, details })
            &&& post.tasks.contains_key(token)
            &&& post.tasks[token].is_record_in_flight
            &&& post.tasks[token].last_send_requested == now
            &&& post.tasks[token].last_recorded_details is None
        }),
{
}

/// An event for one task leaves every other task as it was, and its eviction too. The history of
/// calls only grows, and the token that ends the stream stays.
pub proof fn law_other_tasks_are_untouched(
    stream: Stream,
    event: Event,
    now: u128,
    timer: CancellationToken,
    other: Seq<u8>,
)
    requires
        event.task() != other,
    ensures
        ({
            let (post, job) = stream.next(event, now, timer);
            &&& post.tasks.contains_key(other) == stream.tasks.contains_key(other)
            &&& post.tasks.contains_key(other) ==> post.tasks[other] == stream.tasks[other]
            &&& post.flushing.contains_key(other) == stream.flushing.contains_key(other)
            &&& post.flushing.contains_key(other) ==> post.flushing[other]
                == stream.flushing[other]
            &&& stream.signals.is_prefix_of(post.signals)
            &&& post.shutdown == stream.shutdown
            &&& match job {
                Some(Job::Report { token, .. }) => token == event.task(),
                Some(Job::Sleep { token, .. }) => token == event.task(),
                None => true,
            }
        }),
{
}

/// Heartbeats that come in while a task is tracked are held back: none of them is reported, and of
/// their details the latest are kept. Events for other tasks make no difference.
pub proof fn law_heartbeats_coalesce(stream: Stream, inputs: Seq<Input>, token: Seq<u8>)
    requires
        stream.tasks.contains_key(token),
        only_heartbeats(inputs, token),
    ensures
        run(stream, inputs).tasks.contains_key(token),
        run(stream, inputs).tasks[token] == (ActivityHeartbeatState {
            last_recorded_details: match last_sent(inputs, token) {
                Some(details) => Some(details),
                None => stream.tasks[token].last_recorded_details,
            },
            timeout_resetter: run(stream, inputs).tasks[token].timeout_resetter,
            ..stream.tasks[token]
        }),
        forall|i: int|
            0 <= i < inputs.len() && (#[trigger] inputs[i]).event.task() == token ==> job_at(
                stream,
                inputs,
                i,
            ) is None,
    decreases inputs.len(),
{
    if inputs.len() > 0 {
        let before = inputs.drop_last();
        let last = inputs.last();
        assert forall|i: int|
            0 <= i < before.len() && (#[trigger] before[i]).event.task()
                == token implies before[i].event is SendHeartbeat by {
            assert(before[i] == inputs[i]);
        }
        law_heartbeats_coalesce(stream, before, token);
        assert(inputs[inputs.len() - 1] == last);
        assert forall|i: int|
            0 <= i < inputs.len() && (#[trigger] inputs[i]).event.task() == token implies job_at(
            stream,
            inputs,
            i,
        ) is None by {
            assert(inputs.take(i) =~= before.take(i));
            if i < before.len() {
                assert(before[i] == inputs[i]);
                assert(job_at(stream, before, i) is None);
            } else {
                assert(before.take(i) =~= before);
            }
        }
    }
}

/// When throttling ends, the latest of the details that came in meanwhile are reported.
pub proof fn law_throttle_end_reports_latest(
    stream: Stream,
    inputs: Seq<Input>,
    token: Seq<u8>,
    now: u128,
)
    requires
        stream.tasks.contains_key(token),
        only_heartbeats(inputs, token),
        last_sent(inputs, token) is Some,
    ensures
        run(stream, inputs).throttle_completed(token, now).1 == Some(
            Job::Report { token, details: last_sent(inputs, token)->0 },
        ),
{
    law_heartbeats_coalesce(stream, inputs, token);
}

/// An eviction that asks for it reports the latest details that were held back.
pub proof fn law_eviction_flushes_latest(
    stream: Stream,
    inputs: Seq<Input>,
    token: Seq<u8>,
    on_complete: Arc<Notify>,
)
    requires
        stream.tasks.contains_key(token),
        only_heartbeats(inputs, token),
        last_sent(inputs, token) is Some,
    ensures
        run(stream, inputs).evict(token, on_complete, true).1 == Some(
            Job::Report { token, details: last_sent(inputs, token)->0 },
        ),
{
    law_heartbeats_coalesce(stream, inputs, token);
}

/// An eviction that does not ask for it reports nothing, whatever details were held back.
pub proof fn law_eviction_without_flush_reports_nothing(
    stream: Stream,
    token: Seq<u8>,
    on_complete: Arc<Notify>,
)
    ensures
        stream.evict(token, on_complete, false).1 is None,
{
}

/// A task whose throttling ends with nothing to report is forgotten.
pub proof fn law_idle_task_is_forgotten(stream: Stream, token: Seq<u8>, now: u128)
    requires
        stream.tasks.contains_key(token) ==> stream.tasks[token].last_recorded_details is None,
    ensures
        !stream.throttle_completed(token, now).0.tasks.contains_key(token),
        stream.throttle_completed(token, now).1 is None,
{
}

/// The sleep is never longer than the throttle interval. Where it is not nothing, and time did not
/// go back, it ends exactly one interval after the last report was handed out.
pub proof fn law_sleep_fills_the_interval(task: ActivityHeartbeatState, now: int)
    ensures
        0 <= task.sleep_at(now) <= task.throttle_interval,
        now >= task.last_send_requested && task.sleep_at(now) > 0 ==> now + task.sleep_at(now)
            == task.last_send_requested + task.throttle_interval,
        now >= task.last_send_requested ==> now + task.sleep_at(now) >= task.last_send_requested
            + task.throttle_interval,
{
}

/// Two reports of a task are at least its throttle interval apart. The report that was handed out
/// last is over at `done`, later heartbeats are held back during the sleep that follows, and
/// throttling ends at `woken`, when that sleep has run its time. What came in meanwhile is then
/// reported; a task that sent nothing is forgotten, and reported again with its next heartbeat, at
/// `later`.
pub proof fn law_reports_keep_the_interval(
    stream: Stream,
    token: Seq<u8>,
    done: u128,
    timer: CancellationToken,
    inputs: Seq<Input>,
    woken: u128,
    details: Vec<Payload>,
    throttle_interval: u128,
    timeout_resetter: Option<Arc<Notify>>,
    later: u128,
)
    requires
        stream.tasks.contains_key(token),
        done >= stream.tasks[token].last_send_requested,
        only_heartbeats(inputs, token),
        woken >= done + stream.report_completed(token, done, timer).1->0->nanos,
        later >= woken,
    ensures
        ({
            let due = stream.tasks[token].last_send_requested
                + stream.tasks[token].throttle_interval;
            let resting = run(stream.report_completed(token, done, timer).0, inputs);
            let (post, job) = resting.throttle_completed(token, woken);
            let (again, next) = post.record(
                token,
                details,
                throttle_interval,
                timeout_resetter,
                later,
            );
            if job is Some {
                &&& job->0 is Report
                &&& post.tasks[token].last_send_requested == woken
                &&& woken >= due
            } else {
                &&& next is Some
                &&& next->0 is Report
                &&& again.tasks[token].last_send_requested == later
                &&& later >= due
            }
        }),
{
    law_sleep_fills_the_interval(stream.tasks[token], done as int);
    law_heartbeats_coalesce(stream.report_completed(token, done, timer).0, inputs, token);
}

/// As long as time does not go back, no report was handed out in the future.
pub proof fn law_reports_are_in_the_past(
    stream: Stream,
    event: Event,
    latest: u128,
    now: u128,
    timer: CancellationToken,
)
    requires
        sent_by(stream, latest),
        latest <= now,
    ensures
        sent_by(stream.next(event, now, timer).0, now),
{
}

/// The end of a report is the end of a tracked task's record in flight: nothing that comes later is
/// held back by it. Throttling takes its place.
pub proof fn law_report_end_frees_the_task(
    stream: Stream,
    token: Seq<u8>,
    now: u128,
    timer: CancellationToken,
)
    requires
        stream.tasks.contains_key(token),
    ensures
        ({
            let (post, job) = stream.report_completed(token, now, timer);
            &&& post.tasks.contains_key(token)
            &&& !post.tasks[token].is_record_in_flight
            &&& post.tasks[token].throttled_cancellation_token == Some(timer)
            &&& job == Some(
                Job::Sleep {
                    token,
                    nanos: stream.tasks[token].sleep_at(now as int) as u128,
                    timer,
                },
            )
        }),
{
}

/// Eviction forgets the task and cancels its throttle timer, and no other task's.
pub proof fn law_eviction_forgets(
    stream: Stream,
    token: Seq<u8>,
    on_complete: Arc<Notify>,
    should_flush: bool,
    other: Seq<u8>,
)
    requires
        stream.inv(),
        other != token,
    ensures
        ({
            let post = stream.evict(token, on_complete, should_flush).0;
            &&& !post.tasks.contains_key(token)
            &&& stream.has_timer(token) ==> post.signals.contains(
                Signal::Cancelled(stream.timer(token)),
            )
            &&& stream.has_timer(other) ==> post.has_timer(other) && !post.signals.contains(
                Signal::Cancelled(post.timer(other)),
            )
        }),
{
    let rest = stream.forgotten(token);
    if stream.has_timer(token) {
        lemma_push(stream.signals, Signal::Cancelled(stream.timer(token)));
    }
    lemma_push(rest.signals, Signal::Notified(on_complete));
}

/// Every sleep that is handed out ends with the stream: its timer was derived from the token that
/// ends the stream.
pub proof fn law_sleep_ends_with_the_stream(
    stream: Stream,
    event: Event,
    now: u128,
    timer: CancellationToken,
)
    ensures
        ({
            let (post, job) = stream.next(event, now, timer);
            job is Some && job->0 is Sleep ==> post.signals.contains(
                Signal::Derived { parent: stream.shutdown, child: job->0->timer },
            )
        }),
{
    let token = event.task();
    if stream.derives_timer(event) {
        let history = stream.flushed(token).signals;
        let derived = Signal::Derived { parent: stream.shutdown, child: timer };
        lemma_push(history, derived);
        if let Some(resetter) = stream.tasks[token].timeout_resetter {
            lemma_push(history.push(derived), Signal::Notified(resetter));
        }
    }
}

/// A task that was forgotten stays so until it sends a heartbeat again.
pub proof fn law_forgotten_task_stays_forgotten(stream: Stream, inputs: Seq<Input>, token: Seq<u8>)
    requires
        !stream.tasks.contains_key(token),
        no_heartbeat(inputs, token),
    ensures
        !run(stream, inputs).tasks.contains_key(token),
    decreases inputs.len(),
{
    if inputs.len() > 0 {
        let before = inputs.drop_last();
        assert forall|i: int|
            0 <= i < before.len() && (#[trigger] before[i]).event.task() == token implies !(
        before[i].event is SendHeartbeat) by {
            assert(before[i] == inputs[i]);
        }
        law_forgotten_task_stays_forgotten(stream, before, token);
        assert(inputs[inputs.len() - 1] == inputs.last());
    }
}

/// An eviction is over at once when nothing has to be flushed and no report is under way: its
/// notifier is told by the last of the calls that the eviction makes. Else the notifier waits for
/// the end of a report, and is not told yet.
pub proof fn law_eviction_tells_or_waits(
    stream: Stream,
    token: Seq<u8>,
    on_complete: Arc<Notify>,
    should_flush: bool,
)
    ensures
        ({
            let (post, job) = stream.evict(token, on_complete, should_flush);
            let waits = stream.tasks.contains_key(token) && (
            stream.tasks[token].is_record_in_flight || (should_flush
                && stream.tasks[token].last_recorded_details is Some));
            if waits {
                &&& post.flushing == stream.flushing.insert(token, on_complete)
                &&& post.signals == stream.forgotten(token).signals
            } else {
                &&& job is None
                &&& post.flushing == stream.flushing
                &&& post.signals == stream.forgotten(token).signals.push(
                    Signal::Notified(on_complete),
                )
            }
        }),
{
}

/// A notifier that waits for the end of a report goes on waiting, whatever else happens, until a
/// report for its task ends or the task is evicted once more. When the report ends first, the
/// notifier is told, and nothing of the eviction is left.
pub proof fn law_waiting_eviction_is_told(
    stream: Stream,
    inputs: Seq<Input>,
    token: Seq<u8>,
    now: u128,
    timer: CancellationToken,
)
    requires
        stream.flushing.contains_key(token),
        leaves_flush(inputs, token),
    ensures
        run(stream, inputs).flushing.contains_key(token),
        run(stream, inputs).flushing[token] == stream.flushing[token],
        ({
            let waiting = run(stream, inputs);
            let post = waiting.report_completed(token, now, timer).0;
            &&& !post.flushing.contains_key(token)
            &&& waiting.signals.push(Signal::Notified(stream.flushing[token])).is_prefix_of(
                post.signals,
            )
            &&& !waiting.tasks.contains_key(token) ==> post.signals == waiting.signals.push(
                Signal::Notified(stream.flushing[token]),
            )
        }),
    decreases inputs.len(),
{
    if inputs.len() > 0 {
        let before = inputs.drop_last();
        let last = inputs.last();
        assert forall|i: int|
            0 <= i < before.len() && (#[trigger] before[i]).event.task() == token implies !(
        before[i].event is CompleteReport) && !(before[i].event is Evict) by {
            assert(before[i] == inputs[i]);
        }
        law_waiting_eviction_is_told(stream, before, token, now, timer);
        assert(inputs[inputs.len() - 1] == last);
        let previous = run(stream, before);
        if last.event.task() != token {
            law_other_tasks_are_untouched(previous, last.event, last.now, last.timer, token);
        }
    }
}

/// A repeated eviction of a task that sent no heartbeat since is over at once: it reports nothing,
/// tells its own notifier, and leaves one that waits in place.
pub proof fn law_repeated_eviction_is_over_at_once(
    stream: Stream,
    token: Seq<u8>,
    on_complete: Arc<Notify>,
    should_flush: bool,
)
    requires
        !stream.tasks.contains_key(token),
    ensures
        ({
            let (post, job) = stream.evict(token, on_complete, should_flush);
            &&& job is None
            &&& post == (Stream {
                signals: stream.signals.push(Signal::Notified(on_complete)),
                ..stream
            })
        }),
{
    assert(stream.tasks.remove(token) =~= stream.tasks);
}

/// A notifier of an evicted task that sends no more heartbeats waits for the first end of a report
/// for the task, through repeated evictions too. That end tells it, by the only call it makes, and
/// nothing of the eviction is left.
pub proof fn law_evicted_task_waits_for_its_report(
    stream: Stream,
    inputs: Seq<Input>,
    token: Seq<u8>,
    now: u128,
    timer: CancellationToken,
)
    requires
        !stream.tasks.contains_key(token),
        stream.flushing.contains_key(token),
        no_heartbeat(inputs, token),
        no_report_end(inputs, token),
    ensures
        run(stream, inputs).flushing.contains_key(token),
        run(stream, inputs).flushing[token] == stream.flushing[token],
        ({
            let waiting = run(stream, inputs);
            let (post, job) = waiting.report_completed(token, now, timer);
            &&& job is None
            &&& !post.flushing.contains_key(token)
            &&& post.signals == waiting.signals.push(Signal::Notified(stream.flushing[token]))
        }),
    decreases inputs.len(),
{
    law_forgotten_task_stays_forgotten(stream, inputs, token);
    if inputs.len() > 0 {
        let before = inputs.drop_last();
        let last = inputs.last();
        assert forall|i: int| 0 <= i < before.len() implies #[trigger] before[i] == inputs[i] by {}
        law_evicted_task_waits_for_its_report(stream, before, token, now, timer);
        law_forgotten_task_stays_forgotten(stream, before, token);
        assert(inputs[inputs.len() - 1] == last);
        let previous = run(stream, before);
        if last.event.task() != token {
            law_other_tasks_are_untouched(previous, last.event, last.now, last.timer, token);
        } else if last.event is Evict {
            law_repeated_eviction_is_over_at_once(
                previous,
                token,
                last.event->on_complete,
                last.event->should_flush,
            );
        }
    }
}

/// How often `notifier` was told.
pub open spec fn times_told(history: Seq<Signal>, notifier: Arc<Notify>) -> nat
    decreases history.len(),
{
    if history.len() == 0 {
        0
    } else {
        times_told(history.drop_last(), notifier) + (if history.last() == Signal::Notified(
            notifier,
        ) {
            1nat
        } else {
            0nat
        })
    }
}

/// No task but `token` has `notifier` reset its timeout, and no eviction but that of `token` waits
/// with it.
pub open spec fn serves_only(stream: Stream, notifier: Arc<Notify>, token: Seq<u8>) -> bool {
    &&& forall|t: Seq<u8>| #[trigger]
        stream.tasks.contains_key(t) && t != token ==> stream.tasks[t].timeout_resetter != Some(
            notifier,
        )
    &&& forall|t: Seq<u8>| #[trigger]
        stream.flushing.contains_key(t) && t != token ==> stream.flushing[t] != notifier
}

/// None of `inputs` brings `notifier` in.
pub open spec fn never_brings(inputs: Seq<Input>, notifier: Arc<Notify>) -> bool {
    forall|i: int|
        0 <= i < inputs.len() ==> match (#[trigger] inputs[i]).event {
            Event::SendHeartbeat { timeout_resetter, .. } => timeout_resetter != Some(notifier),
            Event::Evict { on_complete, .. } => on_complete != notifier,
            _ => true,
        }
}

/// Some event among `inputs` ends a report for `token`.
pub open spec fn report_ends(inputs: Seq<Input>, token: Seq<u8>) -> bool {
    exists|i: int|
        0 <= i < inputs.len() && (#[trigger] inputs[i]).event == (Event::CompleteReport { token })
}

/// One more call counts if it tells `notifier`.
pub proof fn lemma_times_told(history: Seq<Signal>, signal: Signal, notifier: Arc<Notify>)
    ensures
        times_told(history.push(signal), notifier) == times_told(history, notifier) + (if signal
            == Signal::Notified(notifier) {
            1nat
        } else {
            0nat
        }),
{
    assert(history.push(signal).drop_last() =~= history);
}

/// The eviction of `token` is still to tell `notifier`.
spec fn owed(stream: Stream, notifier: Arc<Notify>, token: Seq<u8>) -> bool {
    stream.flushing.contains_key(token) && stream.flushing[token] == notifier
}

/// For an evicted task, one event tells `notifier` only if it is owed, and then only if the event
/// ends a report for the task; it is owed no longer then.
proof fn lemma_told_by(
    stream: Stream,
    event: Event,
    now: u128,
    timer: CancellationToken,
    notifier: Arc<Notify>,
    token: Seq<u8>,
)
    requires
        !stream.tasks.contains_key(token),
        serves_only(stream, notifier, token),
        event.task() == token ==> !(event is SendHeartbeat),
        match event {
            Event::SendHeartbeat { timeout_resetter, .. } => timeout_resetter != Some(notifier),
            Event::Evict { on_complete, .. } => on_complete != notifier,
            _ => true,
        },
    ensures
        ({
            let post = stream.next(event, now, timer).0;
            let paid = owed(stream, notifier, token) && event == (Event::CompleteReport { token });
            &&& !post.tasks.contains_key(token)
            &&& serves_only(post, notifier, token)
            &&& owed(post, notifier, token) == (owed(stream, notifier, token) && !paid)
            &&& times_told(post.signals, notifier) == times_told(stream.signals, notifier) + (
            if paid {
                1nat
            } else {
                0nat
            })
        }),
{
    let task = event.task();
    match event {
        Event::SendHeartbeat { .. } => {},
        Event::CompleteThrottle { .. } => {},
        Event::CompleteReport { .. } => {
            if stream.flushing.contains_key(task) {
                lemma_times_told(
                    stream.signals,
                    Signal::Notified(stream.flushing[task]),
                    notifier,
                );
            }
            if stream.tasks.contains_key(task) {
                let history = stream.flushed(task).signals;
                let derived = Signal::Derived { parent: stream.shutdown, child: timer };
                lemma_times_told(history, derived, notifier);
                if let Some(resetter) = stream.tasks[task].timeout_resetter {
                    lemma_times_told(history.push(derived), Signal::Notified(resetter), notifier);
                }
            }
        },
        Event::Evict { on_complete, .. } => {
            if stream.has_timer(task) {
                lemma_times_told(
                    stream.signals,
                    Signal::Cancelled(stream.timer(task)),
                    notifier,
                );
            }
            lemma_times_told(
                stream.forgotten(task).signals,
                Signal::Notified(on_complete),
                notifier,
            );
        },
    }
}

/// For an evicted task, any number of events tell `notifier` once if it is owed and a report for
/// the task ends among them, and else not at all.
proof fn lemma_told_during(
    stream: Stream,
    inputs: Seq<Input>,
    notifier: Arc<Notify>,
    token: Seq<u8>,
)
    requires
        !stream.tasks.contains_key(token),
        serves_only(stream, notifier, token),
        no_heartbeat(inputs, token),
        never_brings(inputs, notifier),
    ensures
        ({
            let post = run(stream, inputs);
            let paid = owed(stream, notifier, token) && report_ends(inputs, token);
            &&& !post.tasks.contains_key(token)
            &&& serves_only(post, notifier, token)
            &&& owed(post, notifier, token) == (owed(stream, notifier, token) && !paid)
            &&& times_told(post.signals, notifier) == times_told(stream.signals, notifier) + (
            if paid {
                1nat
            } else {
                0nat
            })
        }),
    decreases inputs.len(),
{
    if inputs.len() > 0 {
        let before = inputs.drop_last();
        let last = inputs.last();
        assert forall|i: int| 0 <= i < before.len() implies #[trigger] before[i] == inputs[i] by {}
        assert(inputs[inputs.len() - 1] == last);
        lemma_told_during(stream, before, notifier, token);
        lemma_told_by(run(stream, before), last.event, last.now, last.timer, notifier, token);
        if report_ends(before, token) {
            let i = choose|i: int|
                0 <= i < before.len() && (#[trigger] before[i]).event == (Event::CompleteReport {
                    token,
                });
            assert(inputs[i].event == (Event::CompleteReport { token }));
        }
        if report_ends(inputs, token) && !report_ends(before, token) {
            let i = choose|i: int|
                0 <= i < inputs.len() && (#[trigger] inputs[i]).event == (Event::CompleteReport {
                    token,
                });
            if i < before.len() {
                assert(before[i].event == (Event::CompleteReport { token }));
            }
        }
    }
}

/// An eviction tells its notifier exactly once: by itself if nothing is flushed and no report is
/// under way, and else by the first end of a report for its task. Until that comes the notifier is
/// not told, and after it never again, whatever else happens and however often the task is evicted
/// anew. The task sends no heartbeats after its eviction, and the notifier is the eviction's own:
/// nothing else in the stream uses it.
pub proof fn law_eviction_tells_exactly_once(
    stream: Stream,
    token: Seq<u8>,
    on_complete: Arc<Notify>,
    should_flush: bool,
    inputs: Seq<Input>,
)
    requires
        serves_only(stream, on_complete, token),
        stream.flushing.contains_key(token) ==> stream.flushing[token] != on_complete,
        no_heartbeat(inputs, token),
        never_brings(inputs, on_complete),
    ensures
        ({
            let at_once = !stream.flush_due(token, should_flush) && !(stream.tasks.contains_key(
                token,
            ) && stream.tasks[token].is_record_in_flight);
            let post = run(stream.evict(token, on_complete, should_flush).0, inputs);
            times_told(post.signals, on_complete) == times_told(stream.signals, on_complete) + (
            if at_once || report_ends(inputs, token) {
                1nat
            } else {
                0nat
            })
        }),
{
    let evicted = stream.evict(token, on_complete, should_flush).0;
    if stream.has_timer(token) {
        lemma_times_told(stream.signals, Signal::Cancelled(stream.timer(token)), on_complete);
    }
    lemma_times_told(stream.forgotten(token).signals, Signal::Notified(on_complete), on_complete);
    lemma_told_during(evicted, inputs, on_complete, token);
}

} // verus!
