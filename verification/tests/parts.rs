//! The parts that the heartbeat stream is made of.
use activity_heartbeat::action::{ActivityHeartbeat, HeartbeatAction};
use activity_heartbeat::error::ActivityHeartbeatError;
use activity_heartbeat::payload::{into_payloads, Payload};
use activity_heartbeat::report::{
    cancel_reason, conclude_report, conclude_sleep, ActivityCancelReason,
    ActivityCancellationDetails, RecordActivityTaskHeartbeatResponse, ReportConclusion,
    ReportOutcome, HEARTBEAT_RPC_LOCAL_TIMEOUT,
};
use activity_heartbeat::task_token::TaskToken;
use activity_heartbeat::token_map::TokenMap;
use std::time::Duration;

fn token(byte: u8) -> TaskToken {
    TaskToken(vec![byte, 0, 255])
}

fn answer(cancel: bool, paused: bool, reset: bool) -> RecordActivityTaskHeartbeatResponse {
    RecordActivityTaskHeartbeatResponse {
        cancel_requested: cancel,
        activity_paused: paused,
        activity_reset: reset,
    }
}

fn is_end_of_report(conclusion: &ReportConclusion, byte: u8) -> bool {
    match &conclusion.next {
        HeartbeatAction::CompleteReport(tt) => tt.same_as(&token(byte)),
        _ => false,
    }
}

const NO_DETAILS: ActivityCancellationDetails = ActivityCancellationDetails {
    is_not_found: false,
    is_cancelled: false,
    is_paused: false,
    is_timed_out: false,
    is_worker_shutdown: false,
    is_reset: false,
};

#[test]
fn tokens_agree_by_their_bytes() {
    assert!(token(1).same_as(&token(1).clone()));
    assert!(!token(1).same_as(&token(2)));
    assert!(!TaskToken(vec![]).same_as(&token(1)));
    assert!(!TaskToken(vec![1, 0]).same_as(&token(1)));
}

#[test]
fn map_keeps_one_value_for_each_token() {
    let mut map: TokenMap<u32> = TokenMap::new();
    assert!(!map.contains(&token(1)));
    assert_eq!(map.remove(&token(1)), None);
    map.insert(token(1), 10);
    map.insert(token(2), 20);
    map.insert(token(3), 30);
    map.insert(token(1), 11);
    assert!(map.contains(&token(1)));
    assert_eq!(map.remove(&token(1)), Some(11));
    assert_eq!(map.remove(&token(1)), None);
    assert_eq!(map.remove(&token(2)), Some(20));
    assert_eq!(map.remove(&token(3)), Some(30));
    assert!(!map.contains(&token(3)));
}

#[test]
fn no_details_are_no_payloads() {
    assert!(into_payloads(vec![]).is_none());
    let one = Payload {
        metadata: Default::default(),
        data: vec![4, 5],
        external_payloads: Default::default(),
    };
    let two = Payload {
        metadata: Default::default(),
        data: vec![6],
        external_payloads: Default::default(),
    };
    let all = into_payloads(vec![one, two]).unwrap();
    assert_eq!(all.payloads.len(), 2);
    assert_eq!(all.payloads[0].data, vec![4, 5]);
    assert_eq!(all.payloads[1].data, vec![6]);
}

#[test]
fn heartbeat_becomes_an_event() {
    let hb = ActivityHeartbeat { task_token: vec![1, 0, 255], details: vec![] };
    match HeartbeatAction::send_heartbeat(hb, 7, None) {
        HeartbeatAction::SendHeartbeat(valid) => {
            assert!(valid.task_token.same_as(&token(1)));
            assert!(valid.details.is_empty());
            assert_eq!(valid.throttle_interval, 7);
            assert!(valid.timeout_resetter.is_none());
        }
        other => panic!("unexpected event {:?}", other),
    }
}

#[test]
fn cancellation_goes_before_reset_and_reset_before_pause() {
    assert_eq!(cancel_reason(&answer(true, true, true)), Some(ActivityCancelReason::Cancelled));
    assert_eq!(cancel_reason(&answer(true, false, false)), Some(ActivityCancelReason::Cancelled));
    assert_eq!(cancel_reason(&answer(false, true, true)), Some(ActivityCancelReason::Reset));
    assert_eq!(cancel_reason(&answer(false, false, true)), Some(ActivityCancelReason::Reset));
    assert_eq!(cancel_reason(&answer(false, true, false)), Some(ActivityCancelReason::Paused));
    assert_eq!(cancel_reason(&answer(false, false, false)), None);
}

#[test]
fn answer_with_requests_becomes_a_notice() {
    let conclusion = conclude_report(token(1), ReportOutcome::Answered(answer(false, true, true)));
    assert!(is_end_of_report(&conclusion, 1));
    assert_eq!(conclusion.warn_status, None);
    assert!(!conclusion.count_local_timeout);
    let cancel = conclusion.cancel.unwrap();
    assert!(cancel.task_token.same_as(&token(1)));
    assert_eq!(cancel.reason, ActivityCancelReason::Reset);
    assert_eq!(
        cancel.details,
        ActivityCancellationDetails { is_paused: true, is_reset: true, ..NO_DETAILS }
    );
}

#[test]
fn quiet_answer_only_ends_the_report() {
    let conclusion = conclude_report(token(1), ReportOutcome::Answered(answer(false, false, false)));
    assert!(is_end_of_report(&conclusion, 1));
    assert!(conclusion.cancel.is_none());
    assert_eq!(conclusion.warn_status, None);
    assert!(!conclusion.count_local_timeout);
}

#[test]
fn unknown_activity_is_told_so() {
    let number = i32::from(tonic::Code::NotFound);
    let conclusion = conclude_report(token(3), ReportOutcome::Failed(number));
    assert!(is_end_of_report(&conclusion, 3));
    assert_eq!(conclusion.warn_status, None);
    let cancel = conclusion.cancel.unwrap();
    assert!(cancel.task_token.same_as(&token(3)));
    assert_eq!(cancel.reason, ActivityCancelReason::NotFound);
    assert_eq!(
        cancel.details,
        ActivityCancellationDetails { is_not_found: true, ..NO_DETAILS }
    );
}

#[test]
fn other_failures_are_only_warned_about() {
    for number in 0..17 {
        let conclusion = conclude_report(token(1), ReportOutcome::Failed(number));
        assert!(is_end_of_report(&conclusion, 1));
        assert_eq!(conclusion.cancel.is_some(), number == 5);
        assert_eq!(conclusion.warn_status, if number == 5 { None } else { Some(number) });
        assert!(!conclusion.count_local_timeout);
    }
}

#[test]
fn unassigned_status_counts_as_unknown() {
    let unknown = i32::from(tonic::Code::Unknown);
    assert_eq!(conclude_report(token(1), ReportOutcome::Failed(99)).warn_status, Some(unknown));
    assert_eq!(conclude_report(token(1), ReportOutcome::Failed(17)).warn_status, Some(unknown));
    assert_eq!(conclude_report(token(1), ReportOutcome::Failed(-5)).warn_status, Some(unknown));
}

#[test]
fn local_timeout_is_counted() {
    let conclusion = conclude_report(token(1), ReportOutcome::TimedOut);
    assert!(is_end_of_report(&conclusion, 1));
    assert!(conclusion.cancel.is_none());
    assert_eq!(conclusion.warn_status, None);
    assert!(conclusion.count_local_timeout);
    assert_eq!(HEARTBEAT_RPC_LOCAL_TIMEOUT, Duration::from_secs(10).as_nanos());
}

#[test]
fn reason_alone_gives_its_details() {
    let details = ActivityCancellationDetails::from_primary_reason;
    assert_eq!(
        details(ActivityCancelReason::NotFound),
        ActivityCancellationDetails { is_not_found: true, ..NO_DETAILS }
    );
    assert_eq!(
        details(ActivityCancelReason::Cancelled),
        ActivityCancellationDetails { is_cancelled: true, ..NO_DETAILS }
    );
    assert_eq!(
        details(ActivityCancelReason::TimedOut),
        ActivityCancellationDetails { is_timed_out: true, ..NO_DETAILS }
    );
    assert_eq!(
        details(ActivityCancelReason::WorkerShutdown),
        ActivityCancellationDetails { is_worker_shutdown: true, ..NO_DETAILS }
    );
    assert_eq!(
        details(ActivityCancelReason::Paused),
        ActivityCancellationDetails { is_paused: true, ..NO_DETAILS }
    );
    assert_eq!(
        details(ActivityCancelReason::Reset),
        ActivityCancellationDetails { is_reset: true, ..NO_DETAILS }
    );
}

#[test]
fn only_a_full_sleep_ends_throttling() {
    assert!(conclude_sleep(token(1), true).is_none());
    match conclude_sleep(token(1), false) {
        Some(HeartbeatAction::CompleteThrottle(tt)) => assert!(tt.same_as(&token(1))),
        other => panic!("unexpected event {:?}", other),
    }
}

#[test]
fn errors_speak_for_themselves() {
    assert_eq!(
        ActivityHeartbeatError::UnknownActivity.message(),
        "Heartbeat has been sent for activity that either completed or never started on this worker."
    );
    assert_eq!(
        ActivityHeartbeatError::InvalidHeartbeatTimeout.message(),
        "Unable to parse activity heartbeat timeout."
    );
}
