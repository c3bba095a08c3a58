//! What follows from a job that is over: the event that it becomes, and the notice to the activity
//! that a report may call for.
use crate::action::{Event, HeartbeatAction};
use crate::task_token::TaskToken;
use vstd::prelude::*;

verus! {

/// How long a report may take, in nanoseconds: ten seconds.
///
/// A connection can stall without either side noticing, and the deadline that the server enforces
/// is of no help then: the server never sees the request. Without a limit of its own the report
/// would stay under way for ever, and all later heartbeats would only replace the details that wait
/// behind it. The limit is well below the usual heartbeat timeout of an activity, and leaves room
/// for a slow connection.
pub const HEARTBEAT_RPC_LOCAL_TIMEOUT: u128 = 10_000_000_000;

/// The number of the gRPC status that says that something does not exist.
pub const STATUS_NOT_FOUND: i32 = 5;

/// The number of the gRPC status that says nothing.
pub const STATUS_UNKNOWN: i32 = 2;

/// Why an activity is told to stop.
#[derive(Debug, Clone, Copy, PartialEq, Eq, Structural)]
pub enum ActivityCancelReason {
    NotFound,
    Cancelled,
    TimedOut,
    WorkerShutdown,
    Paused,
    Reset,
}

/// All that is known of why an activity is told to stop.
#[derive(Debug, Clone, Copy, PartialEq, Eq, Structural)]
pub struct ActivityCancellationDetails {
    pub is_not_found: bool,
    pub is_cancelled: bool,
    pub is_paused: bool,
    pub is_timed_out: bool,
    pub is_worker_shutdown: bool,
    pub is_reset: bool,
}

impl ActivityCancellationDetails {
    /// The details that follow from a single reason.
    pub fn from_primary_reason(reason: ActivityCancelReason) -> (r: Self)
        ensures
            r == (ActivityCancellationDetails {
                is_not_found: reason is NotFound,
                is_cancelled: reason is Cancelled,
                is_paused: reason is Paused,
                is_timed_out: reason is TimedOut,
                is_worker_shutdown: reason is WorkerShutdown,
                is_reset: reason is Reset,
            }),
    {
        ActivityCancellationDetails {
            is_not_found: reason == ActivityCancelReason::NotFound,
            is_cancelled: reason == ActivityCancelReason::Cancelled,
            is_paused: reason == ActivityCancelReason::Paused,
            is_timed_out: reason == ActivityCancelReason::TimedOut,
            is_worker_shutdown: reason == ActivityCancelReason::WorkerShutdown,
            is_reset: reason == ActivityCancelReason::Reset,
        }
    }
}

/// A notice to an activity that it is to stop.
#[derive(Debug)]
pub struct PendingActivityCancel {
    pub task_token: TaskToken,
    pub reason: ActivityCancelReason,
    pub details: ActivityCancellationDetails,
}

/// What the server answers to a report.
#[derive(Debug, Clone, Copy, PartialEq, Eq, Structural)]
pub struct RecordActivityTaskHeartbeatResponse {
    pub cancel_requested: bool,
    pub activity_paused: bool,
    pub activity_reset: bool,
}

/// How a report ended.
#[derive(Debug, Clone, Copy, PartialEq, Eq, Structural)]
pub enum ReportOutcome {
    /// The server answered.
    Answered(RecordActivityTaskHeartbeatResponse),
    /// The call failed, with the number of a gRPC status.
    Failed(i32),
    /// No answer came in time.
    TimedOut,
}

/// What is to be done after a report.
#[derive(Debug)]
pub struct ReportConclusion {
    /// The notice to send to the activity.
    pub cancel: Option<PendingActivityCancel>,
    /// The status to log a warning about.
    pub warn_status: Option<i32>,
    /// Whether to count one more report that timed out.
    pub count_local_timeout: bool,
    /// The event to hand to the stream.
    pub next: HeartbeatAction,
}

/// The reason to stop that an answer gives: a cancellation goes before a reset, and a reset before
/// a pause.
pub open spec fn answered_reason(response: RecordActivityTaskHeartbeatResponse) -> Option<
    ActivityCancelReason,
> {
    if response.cancel_requested {
        Some(ActivityCancelReason::Cancelled)
    } else if response.activity_reset {
        Some(ActivityCancelReason::Reset)
    } else if response.activity_paused {
        Some(ActivityCancelReason::Paused)
    } else {
        None
    }
}

/// The status that a number stands for. There are seventeen, counted from zero; any other number
/// counts as an unknown status.
pub open spec fn canonical_status(number: i32) -> i32 {
    if 0 <= number <= 16 {
        number
    } else {
        STATUS_UNKNOWN
    }
}

/// The reason to stop that the end of a report gives, with its details. An activity that the
/// server does not know any more is told so: its workflow may be over.
pub open spec fn concluded(outcome: ReportOutcome) -> Option<
    (ActivityCancelReason, ActivityCancellationDetails),
> {
    let none = ActivityCancellationDetails {
        is_not_found: false,
        is_cancelled: false,
        is_paused: false,
        is_timed_out: false,
        is_worker_shutdown: false,
        is_reset: false,
    };
    match outcome {
        ReportOutcome::Answered(response) => match answered_reason(response) {
            Some(reason) => Some(
                (
                    reason,
                    ActivityCancellationDetails {
                        is_cancelled: response.cancel_requested,
                        is_paused: response.activity_paused,
                        is_reset: response.activity_reset,
                        ..none
                    },
                ),
            ),
            None => None,
        },
        ReportOutcome::Failed(number) => if canonical_status(number) == STATUS_NOT_FOUND {
            Some(
                (
                    ActivityCancelReason::NotFound,
                    ActivityCancellationDetails { is_not_found: true, ..none },
                ),
            )
        } else {
            None
        },
        ReportOutcome::TimedOut => None,
    }
}

/// An answer calls for a notice exactly when it sets at least one of its flags. Of two reasons a
/// cancellation goes before a reset, and a reset before a pause, and the details show all the flags
/// that were set and nothing else.
pub proof fn law_every_flag_is_told(response: RecordActivityTaskHeartbeatResponse)
    ensures
        ({
            let RecordActivityTaskHeartbeatResponse {
                cancel_requested,
                activity_paused,
                activity_reset,
            } = response;
            let told = concluded(ReportOutcome::Answered(response));
            &&& told is None <==> answered_reason(response) is None
            &&& told is Some <==> cancel_requested || activity_paused || activity_reset
            &&& told matches Some((reason, details)) ==> {
                &&& answered_reason(response) == Some(reason)
                &&& reason is Cancelled <==> cancel_requested
                &&& reason is Reset <==> activity_reset && !cancel_requested
                &&& reason is Paused <==> activity_paused && !activity_reset && !cancel_requested
                &&& details.is_cancelled == cancel_requested
                &&& details.is_paused == activity_paused
                &&& details.is_reset == activity_reset
                &&& !details.is_not_found
                &&& !details.is_timed_out
                &&& !details.is_worker_shutdown
            }
        }),
{
}

/// A report that got no answer calls for a notice exactly when the call failed because the activity
/// is not known any more, whose status has the number 5, and the details show that alone. The
/// numbers from 0 to 16 stand for themselves, and all others for the unknown status, 2.
pub proof fn law_only_a_lost_activity_is_told(number: i32)
    ensures
        concluded(ReportOutcome::TimedOut) is None,
        concluded(ReportOutcome::Failed(number)) is Some <==> number == 5,
        concluded(ReportOutcome::Failed(number)) matches Some((reason, details)) ==> {
            &&& reason is NotFound
            &&& details.is_not_found
            &&& !details.is_cancelled
            &&& !details.is_paused
            &&& !details.is_timed_out
            &&& !details.is_worker_shutdown
            &&& !details.is_reset
        },
        0 <= number <= 16 ==> canonical_status(number) == number,
        !(0 <= number <= 16) ==> canonical_status(number) == 2,
{
}

/// Calls `tonic::Code::from_i32` and gives the number of the code that comes back. The contract
/// claims that the numbers of the codes are kept, and that every other number becomes that of the
/// unknown code.
#[verifier::external_body]
fn status_number(number: i32) -> (r: i32)
    ensures
        r == canonical_status(number),
{
    i32::from(tonic::Code::from_i32(number))
}

/// The reason to stop that an answer gives, if it gives one.
pub fn cancel_reason(response: &RecordActivityTaskHeartbeatResponse) -> (r: Option<
    ActivityCancelReason,
>)
    ensures
        r == answered_reason(*response),
        r is None <==> !response.cancel_requested && !response.activity_paused
            && !response.activity_reset,
        r == Some(ActivityCancelReason::Cancelled) <==> response.cancel_requested,
        r == Some(ActivityCancelReason::Reset) <==> response.activity_reset
            && !response.cancel_requested,
        r == Some(ActivityCancelReason::Paused) <==> response.activity_paused
            && !response.activity_reset && !response.cancel_requested,
{
    if response.cancel_requested {
        Some(ActivityCancelReason::Cancelled)
    } else if response.activity_reset {
        Some(ActivityCancelReason::Reset)
    } else if response.activity_paused {
        Some(ActivityCancelReason::Paused)
    } else {
        None
    }
}

/// What follows from the end of the report for `tt`. Whatever the outcome, the stream is told that
/// the report is over, so that later heartbeats are not held back by it.
pub fn conclude_report(tt: TaskToken, outcome: ReportOutcome) -> (r: ReportConclusion)
    ensures
        match (concluded(outcome), r.cancel) {
            (Some((reason, details)), Some(cancel)) => {
                &&& cancel.task_token@ == tt@
                &&& cancel.reason == reason
                &&& cancel.details == details
            },
            (None, None) => true,
            _ => false,
        },
        r.warn_status == (match outcome {
            ReportOutcome::Failed(number) if canonical_status(number) != STATUS_NOT_FOUND => Some(
                canonical_status(number),
            ),
            _ => None,
        }),
        r.count_local_timeout == (outcome is TimedOut),
        r.next@ == (Event::CompleteReport { token: tt@ }),
        r.next matches HeartbeatAction::CompleteReport(token) && token.0@ == tt.0@,
        match outcome {
            ReportOutcome::Answered(response) => {
                &&& r.cancel is Some <==> response.cancel_requested || response.activity_paused
                    || response.activity_reset
                &&& r.cancel matches Some(cancel) ==> {
                    &&& cancel.task_token.0@ == tt.0@
                    &&& cancel.reason is Cancelled <==> response.cancel_requested
                    &&& cancel.reason is Reset <==> response.activity_reset
                        && !response.cancel_requested
                    &&& cancel.reason is Paused <==> response.activity_paused
                        && !response.activity_reset && !response.cancel_requested
                    &&& cancel.details.is_cancelled == response.cancel_requested
                    &&& cancel.details.is_paused == response.activity_paused
                    &&& cancel.details.is_reset == response.activity_reset
                    &&& !cancel.details.is_not_found
                    &&& !cancel.details.is_timed_out
                    &&& !cancel.details.is_worker_shutdown
                }
                &&& r.warn_status is None
                &&& !r.count_local_timeout
            },
            ReportOutcome::Failed(number) => {
                &&& r.cancel is Some <==> number == 5
                &&& r.cancel matches Some(cancel) ==> {
                    &&& cancel.task_token.0@ == tt.0@
                    &&& cancel.reason is NotFound
                    &&& cancel.details.is_not_found
                    &&& !cancel.details.is_cancelled
                    &&& !cancel.details.is_paused
                    &&& !cancel.details.is_timed_out
                    &&& !cancel.details.is_worker_shutdown
                    &&& !cancel.details.is_reset
                }
                &&& r.warn_status is None <==> number == 5
                &&& r.warn_status matches Some(status) ==> {
                    &&& 0 <= number <= 16 ==> status == number
                    &&& !(0 <= number <= 16) ==> status == 2
                }
                &&& !r.count_local_timeout
            },
            ReportOutcome::TimedOut => {
                &&& r.cancel is None
                &&& r.warn_status is None
                &&& r.count_local_timeout
            },
        },
{
    let mut cancel: Option<PendingActivityCancel> = None;
    let mut warn_status: Option<i32> = None;
    let mut count_local_timeout = false;
    match outcome {
        ReportOutcome::Answered(response) => {
            if let Some(reason) = cancel_reason(&response) {
                let details = ActivityCancellationDetails {
                    is_not_found: false,
                    is_cancelled: response.cancel_requested,
                    is_paused: response.activity_paused,
                    is_timed_out: false,
                    is_worker_shutdown: false,
                    is_reset: response.activity_reset,
                };
                cancel = Some(PendingActivityCancel { task_token: tt.clone(), reason, details });
            }
        },
        ReportOutcome::Failed(number) => {
            let status = status_number(number);
            if status == STATUS_NOT_FOUND {
                let reason = ActivityCancelReason::NotFound;
                let details = ActivityCancellationDetails::from_primary_reason(reason);
                cancel = Some(PendingActivityCancel { task_token: tt.clone(), reason, details });
            } else {
                warn_status = Some(status);
            }
        },
        ReportOutcome::TimedOut => {
            count_local_timeout = true;
        },
    }
    ReportConclusion {
        cancel,
        warn_status,
        count_local_timeout,
        next: HeartbeatAction::CompleteReport(tt),
    }
}

/// What follows from the end of the sleep for `tt`: the stream is told that throttling is over,
/// unless the sleep was cut short by its timer's cancellation.
pub fn conclude_sleep(tt: TaskToken, cancelled: bool) -> (r: Option<HeartbeatAction>)
    ensures
        match r {
            Some(next) => !cancelled && next@ == (Event::CompleteThrottle { token: tt@ }),
            None => cancelled,
        },
        r matches Some(next) ==> next matches HeartbeatAction::CompleteThrottle(token)
            && token.0@ == tt.0@,
{
    if cancelled {
        None
    } else {
        Some(HeartbeatAction::CompleteThrottle(tt))
    }
}

} // verus!
