//! The decisions of the heartbeat stream, one by one.
use activity_heartbeat::action::{HeartbeatAction, HeartbeatExecutorAction, ValidActivityHeartbeat};
use activity_heartbeat::payload::Payload;
use activity_heartbeat::state::ActivityHeartbeatState;
use activity_heartbeat::stream::{HeartbeatStreamState, Incoming, StreamStep};
use activity_heartbeat::task_token::TaskToken;
use futures_util::FutureExt;
use std::sync::Arc;
use tokio::sync::Notify;
use tokio_util::sync::CancellationToken;

fn token(byte: u8) -> TaskToken {
    TaskToken(vec![byte])
}

fn details(byte: u8) -> Vec<Payload> {
    vec![Payload {
        metadata: Default::default(),
        data: vec![byte],
        external_payloads: Default::default(),
    }]
}

fn heartbeat(byte: u8, data: u8, resetter: Option<Arc<Notify>>) -> ValidActivityHeartbeat {
    ValidActivityHeartbeat {
        task_token: token(byte),
        details: details(data),
        throttle_interval: 100,
        timeout_resetter: resetter,
    }
}

fn told(notify: &Notify) -> bool {
    notify.notified().now_or_never().is_some()
}

/// The task and the first byte of a report.
fn report(action: Option<HeartbeatExecutorAction>) -> (Vec<u8>, u8) {
    match action {
        Some(HeartbeatExecutorAction::Report { task_token, details }) => {
            (task_token.0, details[0].data[0])
        }
        other => panic!("expected a report, got {:?}", other),
    }
}

/// The task, the time and the timer of a sleep.
fn sleep(action: Option<HeartbeatExecutorAction>) -> (Vec<u8>, u128, CancellationToken) {
    match action {
        Some(HeartbeatExecutorAction::Sleep(task_token, nanos, timer)) => {
            (task_token.0, nanos, timer)
        }
        other => panic!("expected a sleep, got {:?}", other),
    }
}

#[test]
fn first_heartbeat_is_reported_and_later_ones_are_held_back() {
    let (mut s, _) = HeartbeatStreamState::new();
    assert_eq!(report(s.record_at(heartbeat(1, 10, None), 5)), (vec![1], 10));
    assert!(s.record_at(heartbeat(1, 11, None), 6).is_none());
    assert!(s.record_at(heartbeat(1, 12, None), 7).is_none());
    assert_eq!(report(s.record_at(heartbeat(2, 20, None), 8)), (vec![2], 20));
    assert_eq!(sleep(s.handle_report_completed_at(token(1), 35)).1, 70);
    assert_eq!(report(s.handle_throttle_completed_at(token(1), 105)), (vec![1], 12));
}

#[test]
fn throttling_without_news_forgets_the_task() {
    let (mut s, _) = HeartbeatStreamState::new();
    report(s.record_at(heartbeat(1, 10, None), 0));
    sleep(s.handle_report_completed_at(token(1), 30));
    assert!(s.handle_throttle_completed_at(token(1), 100).is_none());
    assert_eq!(report(s.record_at(heartbeat(1, 11, None), 101)), (vec![1], 11));
}

#[test]
fn sleep_is_the_rest_of_the_interval() {
    let state = ActivityHeartbeatState {
        last_recorded_details: None,
        is_record_in_flight: true,
        last_send_requested: 1000,
        throttle_interval: 100,
        throttled_cancellation_token: None,
        timeout_resetter: None,
    };
    assert_eq!(state.get_throttle_sleep_duration(1001), 99);
    assert_eq!(state.get_throttle_sleep_duration(1099), 1);
    assert_eq!(state.get_throttle_sleep_duration(1100), 0);
    assert_eq!(state.get_throttle_sleep_duration(5000), 0);
    assert_eq!(state.get_throttle_sleep_duration(1000), 100);
    assert_eq!(state.get_throttle_sleep_duration(900), 100);
}

#[test]
fn interval_of_the_first_heartbeat_stays() {
    let (mut s, _) = HeartbeatStreamState::new();
    report(s.record_at(heartbeat(1, 10, None), 0));
    let mut later = heartbeat(1, 11, None);
    later.throttle_interval = 500;
    assert!(s.record_at(later, 1).is_none());
    assert_eq!(sleep(s.handle_report_completed_at(token(1), 40)).1, 60);
}

#[test]
fn report_end_resets_the_heartbeat_timeout() {
    let (mut s, _) = HeartbeatStreamState::new();
    let first = Arc::new(Notify::new());
    let second = Arc::new(Notify::new());
    report(s.record_at(heartbeat(1, 10, Some(first.clone())), 0));
    assert!(!told(&first));
    assert!(s.record_at(heartbeat(1, 11, Some(second.clone())), 1).is_none());
    sleep(s.handle_report_completed_at(token(1), 2));
    assert!(!told(&first));
    assert!(told(&second));
    assert!(!told(&second));
}

#[test]
fn report_end_of_an_unknown_task_does_nothing() {
    let (mut s, _) = HeartbeatStreamState::new();
    assert!(s.handle_report_completed_at(token(1), 2).is_none());
    assert!(s.handle_throttle_completed_at(token(1), 3).is_none());
}

#[test]
fn evicting_an_unknown_task_is_over_at_once() {
    let (mut s, _) = HeartbeatStreamState::new();
    let done = Arc::new(Notify::new());
    assert!(s.evict(token(1), done.clone(), true).is_none());
    assert!(told(&done));
}

#[test]
fn eviction_waits_for_the_report_under_way() {
    let (mut s, _) = HeartbeatStreamState::new();
    let done = Arc::new(Notify::new());
    report(s.record_at(heartbeat(1, 10, None), 0));
    assert!(s.evict(token(1), done.clone(), true).is_none());
    assert!(!told(&done));
    assert!(s.handle_report_completed_at(token(2), 4).is_none());
    assert!(!told(&done));
    assert!(s.handle_report_completed_at(token(1), 5).is_none());
    assert!(told(&done));
    assert!(s.handle_report_completed_at(token(1), 6).is_none());
    assert!(!told(&done));
}

#[test]
fn eviction_flushes_and_cancels_its_own_timer() {
    let (mut s, shutdown) = HeartbeatStreamState::new();
    let done = Arc::new(Notify::new());
    report(s.record_at(heartbeat(1, 10, None), 0));
    report(s.record_at(heartbeat(2, 20, None), 0));
    let (_, _, mine) = sleep(s.handle_report_completed_at(token(1), 10));
    let (_, _, theirs) = sleep(s.handle_report_completed_at(token(2), 10));
    assert!(mine != theirs && mine != shutdown);
    assert!(s.record_at(heartbeat(1, 11, None), 20).is_none());
    assert!(!mine.is_cancelled());
    assert_eq!(report(s.evict(token(1), done.clone(), true)), (vec![1], 11));
    assert!(mine.is_cancelled());
    assert!(!theirs.is_cancelled());
    assert!(!shutdown.is_cancelled());
    assert!(!told(&done));
    assert!(s.handle_throttle_completed_at(token(1), 30).is_none());
    assert!(s.handle_report_completed_at(token(1), 40).is_none());
    assert!(told(&done));
}

#[test]
fn eviction_without_flush_drops_the_details() {
    let (mut s, _) = HeartbeatStreamState::new();
    let done = Arc::new(Notify::new());
    report(s.record_at(heartbeat(1, 10, None), 0));
    let (_, _, timer) = sleep(s.handle_report_completed_at(token(1), 10));
    assert!(s.record_at(heartbeat(1, 11, None), 20).is_none());
    assert!(s.evict(token(1), done.clone(), false).is_none());
    assert!(timer.is_cancelled());
    assert!(told(&done));
}

#[test]
fn eviction_that_flushes_over_a_report_is_told_by_the_first_end() {
    let (mut s, _) = HeartbeatStreamState::new();
    let done = Arc::new(Notify::new());
    report(s.record_at(heartbeat(1, 10, None), 0));
    assert!(s.record_at(heartbeat(1, 11, None), 1).is_none());
    assert_eq!(report(s.evict(token(1), done.clone(), true)), (vec![1], 11));
    assert!(s.handle_report_completed_at(token(1), 5).is_none());
    assert!(told(&done));
}

#[test]
fn shutdown_cancels_every_timer() {
    let (mut s, shutdown) = HeartbeatStreamState::new();
    report(s.record_at(heartbeat(1, 10, None), 0));
    let (_, _, timer) = sleep(s.handle_report_completed_at(token(1), 10));
    shutdown.cancel();
    assert!(timer.is_cancelled());
    report(s.record_at(heartbeat(2, 20, None), 20));
    let (_, _, late) = sleep(s.handle_report_completed_at(token(2), 30));
    assert!(late.is_cancelled());
}

#[test]
fn events_are_told_apart() {
    let (mut s, _) = HeartbeatStreamState::new();
    let done = Arc::new(Notify::new());
    let sent = HeartbeatAction::SendHeartbeat(heartbeat(1, 10, None));
    assert_eq!(report(s.apply_at(sent, 0)), (vec![1], 10));
    let (tt, nanos, _) = sleep(s.apply_at(HeartbeatAction::CompleteReport(token(1)), 25));
    assert_eq!((tt, nanos), (vec![1], 75));
    assert!(s.apply_at(HeartbeatAction::SendHeartbeat(heartbeat(1, 11, None)), 30).is_none());
    let woken = HeartbeatAction::CompleteThrottle(token(1));
    assert_eq!(report(s.apply_at(woken, 100)), (vec![1], 11));
    let evicted = HeartbeatAction::Evict {
        token: token(1),
        on_complete: done.clone(),
        should_flush: true,
    };
    assert!(s.apply_at(evicted, 110).is_none());
    assert!(s.apply_at(HeartbeatAction::CompleteReport(token(1)), 120).is_none());
    assert!(told(&done));
}

#[test]
fn stream_ends_on_shutdown_and_disconnection() {
    let (mut s, _) = HeartbeatStreamState::new();
    let sent = HeartbeatAction::SendHeartbeat(heartbeat(1, 10, None));
    match s.advance(Incoming::Received(sent)) {
        StreamStep::Continue(action) => assert_eq!(report(action), (vec![1], 10)),
        StreamStep::Finished => panic!("the stream goes on"),
    }
    assert!(matches!(s.advance(Incoming::ShutdownRequested), StreamStep::Finished));
    assert!(matches!(s.advance(Incoming::Disconnected), StreamStep::Finished));
}

#[test]
fn real_clock_is_read() {
    let (mut s, _) = HeartbeatStreamState::new();
    let mut hb = heartbeat(1, 10, None);
    hb.throttle_interval = 3_600_000_000_000;
    report(s.record(hb));
    let began = std::time::Instant::now();
    while began.elapsed().as_millis() < 20 {}
    let (_, nanos, _) = sleep(s.handle_report_completed(token(1)));
    assert!(nanos <= 3_599_980_000_000);
    assert!(nanos > 3_000_000_000_000);
    assert!(s.record(heartbeat(1, 11, None)).is_none());
    assert_eq!(report(s.handle_throttle_completed(token(1))), (vec![1], 11));
}

#[test]
fn report_that_takes_no_time_is_throttled_in_full() {
    let (mut s, _) = HeartbeatStreamState::new();
    report(s.record_at(heartbeat(1, 10, None), 7));
    assert_eq!(sleep(s.handle_report_completed_at(token(1), 7)).1, 100);
}

#[test]
fn repeated_eviction_is_over_at_once_and_leaves_the_first_waiting() {
    let (mut s, _) = HeartbeatStreamState::new();
    let first = Arc::new(Notify::new());
    let second = Arc::new(Notify::new());
    report(s.record_at(heartbeat(1, 10, None), 0));
    assert!(s.evict(token(1), first.clone(), true).is_none());
    assert!(s.evict(token(1), second.clone(), true).is_none());
    assert!(!told(&first));
    assert!(told(&second));
    assert!(s.handle_report_completed_at(token(1), 5).is_none());
    assert!(told(&first));
    assert!(!told(&second));
    assert!(s.handle_report_completed_at(token(1), 6).is_none());
    assert!(!told(&first));
}
