//! What every event comes to, told by what goes in and what comes out: which job is handed out,
//! what is known of the task afterwards, and which handles were called in between.
use crate::action::{
    Event, HeartbeatAction, HeartbeatExecutorAction, Job, ValidActivityHeartbeat, job_of,
};
use crate::laws::{Input, lemma_times_told, run, times_told};
use crate::model::Stream;
use crate::payload::Payload;
use crate::signals::Signal;
use crate::state::ActivityHeartbeatState;
use crate::task_token::TaskToken;
use std::sync::Arc;
use tokio::sync::Notify;
use tokio_util::sync::CancellationToken;
use vstd::prelude::*;

verus! {

/// An event says all that the action behind it holds, and names its task by the token's bytes.
pub proof fn law_event_tells_the_action(
    hb: ValidActivityHeartbeat,
    token: TaskToken,
    on_complete: Arc<Notify>,
    should_flush: bool,
)
    ensures
        HeartbeatAction::SendHeartbeat(hb)@ == (Event::SendHeartbeat {
            token: hb.task_token.0@,
            details: hb.details,
            throttle_interval: hb.throttle_interval,
            timeout_resetter: hb.timeout_resetter,
        }),
        (HeartbeatAction::Evict { token, on_complete, should_flush })@ == (Event::Evict {
            token: token.0@,
            on_complete,
            should_flush,
        }),
        HeartbeatAction::CompleteReport(token)@ == (Event::CompleteReport { token: token.0@ }),
        HeartbeatAction::CompleteThrottle(token)@ == (Event::CompleteThrottle { token: token.0@ }),
{
}

/// A job says all that the action behind it holds, and there is a job exactly where there is an
/// action.
pub proof fn law_job_tells_the_action(
    token: TaskToken,
    nanos: u128,
    timer: CancellationToken,
    details: Vec<Payload>,
)
    ensures
        job_of(Some(HeartbeatExecutorAction::Sleep(token, nanos, timer))) == Some(
            Job::Sleep { token: token.0@, nanos, timer },
        ),
        job_of(Some(HeartbeatExecutorAction::Report { task_token: token, details })) == Some(
            Job::Report { token: token.0@, details },
        ),
        job_of(None) is None,
{
}

/// An event that the stream takes in by its general step does what the step for that kind of event
/// does.
pub proof fn law_general_step_agrees(
    stream: Stream,
    token: Seq<u8>,
    details: Vec<Payload>,
    throttle_interval: u128,
    timeout_resetter: Option<Arc<Notify>>,
    on_complete: Arc<Notify>,
    should_flush: bool,
    now: u128,
    timer: CancellationToken,
)
    ensures
        stream.next(
            Event::SendHeartbeat { token, details, throttle_interval, timeout_resetter },
            now,
            timer,
        ) == stream.record(token, details, throttle_interval, timeout_resetter, now),
        stream.next(Event::Evict { token, on_complete, should_flush }, now, timer) == stream.evict(
            token,
            on_complete,
            should_flush,
        ),
        stream.next(Event::CompleteReport { token }, now, timer) == stream.report_completed(
            token,
            now,
            timer,
        ),
        stream.next(Event::CompleteThrottle { token }, now, timer) == stream.throttle_completed(
            token,
            now,
        ),
{
}

/// A heartbeat is never lost. For an unknown task it is handed out as a report at once and nothing
/// is held back; for a known one it is held back, in place of what was held back before, and no
/// report is handed out. Either way its resetter is the one that the end of the next report calls.
/// No handle is called, no eviction is touched, and no other task.
pub proof fn law_heartbeat_is_reported_or_held_back(
    stream: Stream,
    token: Seq<u8>,
    details: Vec<Payload>,
    throttle_interval: u128,
    timeout_resetter: Option<Arc<Notify>>,
    now: u128,
    timer: CancellationToken,
)
    ensures
        ({
            let event = Event::SendHeartbeat { token, details, throttle_interval, timeout_resetter };
            let (post, job) = stream.next(event, now, timer);
            let known = stream.tasks.contains_key(token);
            let before = stream.tasks[token];
            let after = post.tasks[token];
            &&& post.tasks.contains_key(token)
            &&& post.tasks == stream.tasks.insert(token, after)
            &&& post.flushing == stream.flushing
            &&& post.signals == stream.signals
            &&& post.shutdown == stream.shutdown
            &&& after.timeout_resetter == timeout_resetter
            &&& known ==> {
                &&& job is None
                &&& after.last_recorded_details == Some(details)
                &&& after.is_record_in_flight == before.is_record_in_flight
                &&& after.last_send_requested == before.last_send_requested
                &&& after.throttle_interval == before.throttle_interval
                &&& after.throttled_cancellation_token == before.throttled_cancellation_token
            }
            &&& !known ==> {
                &&& job == Some(Job::Report { token, details })
                &&& after.last_recorded_details is None
                &&& after.is_record_in_flight
                &&& after.last_send_requested == now
                &&& after.throttle_interval == throttle_interval
                &&& after.throttled_cancellation_token is None
            }
        }),
{
}

/// The end of a report for a tracked task keeps what is held back, and all else that is known of
/// the task. It hands out a sleep on the new timer, which ends one interval after the report was
/// handed out, or at once if that is over. It calls these handles, in this order: the notifier of
/// an eviction that waits, the stream's token for the new timer, and the resetter of the latest
/// heartbeat; each once, and no other.
pub proof fn law_report_end_throttles(
    stream: Stream,
    token: Seq<u8>,
    now: u128,
    timer: CancellationToken,
)
    requires
        stream.tasks.contains_key(token),
    ensures
        ({
            let (post, job) = stream.next(Event::CompleteReport { token }, now, timer);
            let before = stream.tasks[token];
            let after = post.tasks[token];
            let ready = before.last_send_requested + before.throttle_interval;
            &&& post.tasks.contains_key(token)
            &&& post.tasks == stream.tasks.insert(token, after)
            &&& post.shutdown == stream.shutdown
            &&& after.last_recorded_details == before.last_recorded_details
            &&& after.timeout_resetter == before.timeout_resetter
            &&& after.last_send_requested == before.last_send_requested
            &&& after.throttle_interval == before.throttle_interval
            &&& !after.is_record_in_flight
            &&& after.throttled_cancellation_token == Some(timer)
            &&& job matches Some(Job::Sleep { token: t, nanos, timer: c }) && {
                &&& t == token
                &&& c == timer
                &&& now >= before.last_send_requested && now < ready ==> now + nanos == ready
                &&& now >= ready ==> nanos == 0
                &&& now < before.last_send_requested ==> nanos == before.throttle_interval
            }
            &&& post.flushing == stream.flushing.remove(token)
            &&& post.signals == stream.signals + (if stream.flushing.contains_key(token) {
                seq![Signal::Notified(stream.flushing[token])]
            } else {
                seq![]
            }) + seq![Signal::Derived { parent: stream.shutdown, child: timer }] + (
            match before.timeout_resetter {
                Some(resetter) => seq![Signal::Notified(resetter)],
                None => seq![],
            })
        }),
{
    let post = stream.next(Event::CompleteReport { token }, now, timer).0;
    assert(post.tasks =~= stream.tasks.insert(token, post.tasks[token]));
    assert(post.flushing =~= stream.flushing.remove(token));
}

/// The end of a report for a task that is not tracked hands out nothing. It tells an eviction that
/// waits, once, and calls no other handle.
pub proof fn law_report_end_of_untracked_task(
    stream: Stream,
    token: Seq<u8>,
    now: u128,
    timer: CancellationToken,
)
    requires
        !stream.tasks.contains_key(token),
    ensures
        ({
            let (post, job) = stream.next(Event::CompleteReport { token }, now, timer);
            &&& job is None
            &&& post.tasks == stream.tasks
            &&& post.shutdown == stream.shutdown
            &&& post.flushing == stream.flushing.remove(token)
            &&& post.signals == stream.signals + (if stream.flushing.contains_key(token) {
                seq![Signal::Notified(stream.flushing[token])]
            } else {
                seq![]
            })
        }),
{
    let post = stream.next(Event::CompleteReport { token }, now, timer).0;
    assert(post.flushing =~= stream.flushing.remove(token));
}

/// The end of throttling hands out what is held back, whatever it is and even if it is empty, and
/// the task stays tracked with that report under way. A task with nothing held back is forgotten.
/// No handle is called, no eviction is touched, and no other task.
pub proof fn law_throttle_end_reports_or_forgets(
    stream: Stream,
    token: Seq<u8>,
    now: u128,
    timer: CancellationToken,
)
    ensures
        ({
            let (post, job) = stream.next(Event::CompleteThrottle { token }, now, timer);
            let before = stream.tasks[token];
            let after = post.tasks[token];
            &&& post.flushing == stream.flushing
            &&& post.signals == stream.signals
            &&& post.shutdown == stream.shutdown
            &&& match before.last_recorded_details {
                Some(details) if stream.tasks.contains_key(token) => {
                    &&& job == Some(Job::Report { token, details })
                    &&& post.tasks.contains_key(token)
                    &&& post.tasks == stream.tasks.insert(token, after)
                    &&& after.last_recorded_details is None
                    &&& after.is_record_in_flight
                    &&& after.last_send_requested == now
                    &&& after.throttle_interval == before.throttle_interval
                    &&& after.throttled_cancellation_token is None
                    &&& after.timeout_resetter == before.timeout_resetter
                },
                _ => {
                    &&& job is None
                    &&& post.tasks == stream.tasks.remove(token)
                },
            }
        }),
{
    let post = stream.next(Event::CompleteThrottle { token }, now, timer).0;
    if !stream.tasks.contains_key(token) {
        assert(post.tasks =~= stream.tasks.remove(token));
    }
}

/// An eviction that asks for it hands out what is held back, whether or not another report is under
/// way, and in no other case hands out anything. The task is forgotten, and no other. The notifier
/// is kept for the end of a report if one is handed out or under way, and is else told at once. The
/// handles that are called are the task's timer, if it has one, and then the notifier if it is told;
/// each once, and no other.
pub proof fn law_eviction_flushes_forgets_and_tells(
    stream: Stream,
    token: Seq<u8>,
    on_complete: Arc<Notify>,
    should_flush: bool,
    now: u128,
    timer: CancellationToken,
)
    ensures
        ({
            let (post, job) = stream.next(
                Event::Evict { token, on_complete, should_flush },
                now,
                timer,
            );
            let known = stream.tasks.contains_key(token);
            let before = stream.tasks[token];
            let waits = job is Some || (known && before.is_record_in_flight);
            &&& match before.last_recorded_details {
                Some(details) if known && should_flush => job == Some(
                    Job::Report { token, details },
                ),
                _ => job is None,
            }
            &&& post.tasks == stream.tasks.remove(token)
            &&& post.shutdown == stream.shutdown
            &&& post.flushing == (if waits {
                stream.flushing.insert(token, on_complete)
            } else {
                stream.flushing
            })
            &&& post.signals == stream.signals + (match before.throttled_cancellation_token {
                Some(running) if known => seq![Signal::Cancelled(running)],
                _ => seq![],
            }) + (if waits {
                seq![]
            } else {
                seq![Signal::Notified(on_complete)]
            })
        }),
{
}

/// None of the events for `token` among `inputs` is other than a heartbeat or the end of a report.
pub open spec fn heartbeats_and_report_ends(inputs: Seq<Input>, token: Seq<u8>) -> bool {
    forall|i: int|
        0 <= i < inputs.len() ==> match (#[trigger] inputs[i]).event {
            Event::Evict { token: t, .. } => t != token,
            Event::CompleteThrottle { token: t } => t != token,
            _ => true,
        }
}

/// The input at position `i` is the last heartbeat for `token` among `inputs`.
pub open spec fn is_last_heartbeat(inputs: Seq<Input>, token: Seq<u8>, i: int) -> bool {
    &&& 0 <= i < inputs.len()
    &&& inputs[i].event matches Event::SendHeartbeat { token: t, .. } && t == token
    &&& forall|j: int|
        i < j < inputs.len() ==> match (#[trigger] inputs[j]).event {
            Event::SendHeartbeat { token: t, .. } => t != token,
            _ => true,
        }
}

/// A tracked task stays tracked through heartbeats and ends of reports.
proof fn lemma_stays(stream: Stream, inputs: Seq<Input>, token: Seq<u8>)
    requires
        stream.tasks.contains_key(token),
        heartbeats_and_report_ends(inputs, token),
    ensures
        run(stream, inputs).tasks.contains_key(token),
    decreases inputs.len(),
{
    if inputs.len() > 0 {
        let before = inputs.drop_last();
        assert(inputs[inputs.len() - 1] == inputs.last());
        assert forall|j: int| 0 <= j < before.len() implies #[trigger] before[j] == inputs[j] by {}
        lemma_stays(stream, before, token);
    }
}

/// The latest heartbeat of a tracked task is kept, with its details and its resetter, through ends
/// of reports and all that happens to other tasks.
proof fn lemma_latest_heartbeat_is_kept(
    stream: Stream,
    inputs: Seq<Input>,
    token: Seq<u8>,
    i: int,
)
    requires
        stream.tasks.contains_key(token),
        heartbeats_and_report_ends(inputs, token),
        is_last_heartbeat(inputs, token, i),
    ensures
        ({
            let task = run(stream, inputs).tasks[token];
            &&& run(stream, inputs).tasks.contains_key(token)
            &&& task.last_recorded_details == Some(inputs[i].event->details)
            &&& task.timeout_resetter == inputs[i].event->timeout_resetter
        }),
    decreases inputs.len(),
{
    let before = inputs.drop_last();
    assert(inputs[inputs.len() - 1] == inputs.last());
    assert forall|j: int| 0 <= j < before.len() implies #[trigger] before[j] == inputs[j] by {}
    if i == before.len() {
        lemma_stays(stream, before, token);
    } else {
        lemma_latest_heartbeat_is_kept(stream, before, token, i);
    }
}

/// The latest heartbeat that comes in while a task is tracked is the one that counts, however many
/// reports for the task end meanwhile and whatever happens to other tasks:
/// - the end of throttling reports its details, and so does an eviction that flushes;
/// - the end of a report calls its resetter, and its last call is that one.
pub proof fn law_latest_heartbeat_counts(
    stream: Stream,
    inputs: Seq<Input>,
    token: Seq<u8>,
    i: int,
    on_complete: Arc<Notify>,
    now: u128,
    timer: CancellationToken,
)
    requires
        stream.tasks.contains_key(token),
        heartbeats_and_report_ends(inputs, token),
        is_last_heartbeat(inputs, token, i),
    ensures
        ({
            let held = run(stream, inputs);
            let details = inputs[i].event->details;
            let woken = held.next(Event::CompleteThrottle { token }, now, timer);
            let evicted = held.next(
                Event::Evict { token, on_complete, should_flush: true },
                now,
                timer,
            );
            let done = held.next(Event::CompleteReport { token }, now, timer);
            &&& woken.1 == Some(Job::Report { token, details })
            &&& woken.0.tasks.contains_key(token)
            &&& evicted.1 == Some(Job::Report { token, details })
            &&& inputs[i].event->timeout_resetter matches Some(resetter) ==> {
                &&& done.0.signals.len() > held.signals.len()
                &&& done.0.signals.last() == Signal::Notified(resetter)
            }
        }),
{
    lemma_latest_heartbeat_is_kept(stream, inputs, token, i);
    let held = run(stream, inputs);
    law_throttle_end_reports_or_forgets(held, token, now, timer);
    law_eviction_flushes_forgets_and_tells(held, token, on_complete, true, now, timer);
    law_report_end_throttles(held, token, now, timer);
}

/// When a report for a task ends, the resetter of the latest heartbeat is told once: once more than
/// before if no eviction of the task waits with the same notifier. This holds of the heartbeat that
/// starts the tracking of the task as of one that finds it tracked. A heartbeat without a resetter
/// has nobody told.
pub proof fn law_report_end_tells_the_resetter_once(
    stream: Stream,
    token: Seq<u8>,
    details: Vec<Payload>,
    throttle_interval: u128,
    timeout_resetter: Option<Arc<Notify>>,
    sent: u128,
    done: u128,
    timer: CancellationToken,
    notifier: Arc<Notify>,
)
    requires
        stream.flushing.contains_key(token) ==> stream.flushing[token] != notifier,
    ensures
        ({
            let event = Event::SendHeartbeat { token, details, throttle_interval, timeout_resetter };
            let after = stream.next(event, sent, timer).0.next(
                Event::CompleteReport { token },
                done,
                timer,
            ).0;
            times_told(after.signals, notifier) == times_told(stream.signals, notifier) + (
            if timeout_resetter == Some(notifier) {
                1nat
            } else {
                0nat
            })
        }),
{
    let event = Event::SendHeartbeat { token, details, throttle_interval, timeout_resetter };
    let before = stream.next(event, sent, timer).0;
    law_heartbeat_is_reported_or_held_back(
        stream,
        token,
        details,
        throttle_interval,
        timeout_resetter,
        sent,
        timer,
    );
    law_report_end_throttles(before, token, done, timer);
    let waiter = Signal::Notified(stream.flushing[token]);
    let derived = Signal::Derived { parent: stream.shutdown, child: timer };
    let told = if stream.flushing.contains_key(token) {
        stream.signals.push(waiter)
    } else {
        stream.signals
    };
    lemma_times_told(stream.signals, waiter, notifier);
    lemma_times_told(told, derived, notifier);
    if let Some(resetter) = timeout_resetter {
        lemma_times_told(told.push(derived), Signal::Notified(resetter), notifier);
    }
}

/// How long a task that reported at some time sleeps from `now` on: until one interval after that
/// time, not at all if that is over, and for a whole interval if the clock shows an earlier time.
pub proof fn law_sleep_is_the_rest_of_the_interval(task: ActivityHeartbeatState, now: int)
    ensures
        ({
            let ready = task.last_send_requested + task.throttle_interval;
            &&& task.last_send_requested <= now < ready ==> now + task.sleep_at(now) == ready
            &&& now >= ready ==> task.sleep_at(now) == 0
            &&& now < task.last_send_requested ==> task.sleep_at(now) == task.throttle_interval
        }),
{
}

} // verus!
