//! Whole runs of heartbeating, on a clock that the test sets.
use activity_heartbeat::action::{
    ActivityHeartbeat, HeartbeatAction, HeartbeatExecutorAction,
};
use activity_heartbeat::payload::{into_payloads, Payload, Payloads};
use activity_heartbeat::report::{
    conclude_report, conclude_sleep, PendingActivityCancel, RecordActivityTaskHeartbeatResponse,
    ReportOutcome, HEARTBEAT_RPC_LOCAL_TIMEOUT,
};
use activity_heartbeat::stream::HeartbeatStreamState;
use activity_heartbeat::task_token::TaskToken;
use futures_util::FutureExt;
use std::sync::Arc;
use tokio::sync::Notify;
use tokio_util::sync::CancellationToken;

const MILLI: u128 = 1_000_000;

/// How long the server takes to answer.
const LATENCY: u128 = 1_000;

/// How the server treats a report.
#[derive(Clone, Copy)]
enum Server {
    Answers(RecordActivityTaskHeartbeatResponse),
    Fails(i32),
    Hangs,
}

enum Job {
    Sleep(TaskToken, CancellationToken),
    Report(TaskToken, ReportOutcome),
}

/// Runs the stream and its jobs.
struct Sim {
    state: HeartbeatStreamState,
    shutdown: CancellationToken,
    server: Server,
    now: u128,
    jobs: Vec<(u128, Job)>,
    /// When each report was made, and what it carried.
    calls: Vec<(u128, Option<Payloads>)>,
    cancels: Vec<PendingActivityCancel>,
    local_timeouts: u32,
}

fn quiet() -> Server {
    Server::Answers(RecordActivityTaskHeartbeatResponse {
        cancel_requested: false,
        activity_paused: false,
        activity_reset: false,
    })
}

fn payload(data: u8) -> Payload {
    Payload {
        metadata: Default::default(),
        data: vec![data],
        external_payloads: Default::default(),
    }
}

impl Sim {
    fn new(server: Server) -> Self {
        let (state, shutdown) = HeartbeatStreamState::new();
        Sim {
            state,
            shutdown,
            server,
            now: 0,
            jobs: Vec::new(),
            calls: Vec::new(),
            cancels: Vec::new(),
            local_timeouts: 0,
        }
    }

    fn apply(&mut self, action: HeartbeatAction) {
        match self.state.apply_at(action, self.now) {
            None => {}
            Some(HeartbeatExecutorAction::Sleep(tt, nanos, timer)) => {
                self.jobs.push((self.now + nanos, Job::Sleep(tt, timer)));
            }
            Some(HeartbeatExecutorAction::Report { task_token, details }) => {
                self.calls.push((self.now, into_payloads(details)));
                let (took, outcome) = match self.server {
                    Server::Answers(response) => (LATENCY, ReportOutcome::Answered(response)),
                    Server::Fails(code) => (LATENCY, ReportOutcome::Failed(code)),
                    Server::Hangs => (HEARTBEAT_RPC_LOCAL_TIMEOUT, ReportOutcome::TimedOut),
                };
                self.jobs.push((self.now + took, Job::Report(task_token, outcome)));
            }
        }
    }

    fn finish(&mut self, job: Job) {
        match job {
            Job::Sleep(tt, timer) => {
                if let Some(next) = conclude_sleep(tt, timer.is_cancelled()) {
                    self.apply(next);
                }
            }
            Job::Report(tt, outcome) => {
                let conclusion = conclude_report(tt, outcome);
                if conclusion.count_local_timeout {
                    self.local_timeouts += 1;
                }
                self.cancels.extend(conclusion.cancel);
                self.apply(conclusion.next);
            }
        }
    }

    /// Lets `nanos` go by.
    fn sleep(&mut self, nanos: u128) {
        let until = self.now + nanos;
        loop {
            let mut due: Option<usize> = None;
            for i in 0..self.jobs.len() {
                if self.jobs[i].0 <= until
                    && (due.is_none() || self.jobs[i].0 < self.jobs[due.unwrap()].0)
                {
                    due = Some(i);
                }
            }
            match due {
                None => break,
                Some(i) => {
                    let (at, job) = self.jobs.remove(i);
                    self.now = self.now.max(at);
                    self.finish(job);
                }
            }
        }
        self.now = until;
    }

    fn record(&mut self, task_token: Vec<u8>, data: u8, interval: u128) {
        let hb = ActivityHeartbeat { task_token, details: vec![payload(data)] };
        self.apply(HeartbeatAction::send_heartbeat(hb, interval, None));
    }

    /// Evicts, and waits until the eviction is over.
    fn evict(&mut self, task_token: Vec<u8>, should_flush: bool) {
        let completed = Arc::new(Notify::new());
        self.apply(HeartbeatAction::Evict {
            token: TaskToken(task_token),
            on_complete: completed.clone(),
            should_flush,
        });
        let mut waited = 0;
        while completed.notified().now_or_never().is_none() {
            assert!(waited < 100, "eviction is never over");
            self.sleep(LATENCY);
            waited += 1;
        }
    }

    /// Ends the stream: no event is taken in any more, and no sleep goes on.
    fn shutdown(&mut self) {
        self.shutdown.cancel();
        for (_, job) in &self.jobs {
            if let Job::Sleep(_, timer) = job {
                assert!(timer.is_cancelled());
            }
        }
    }

    /// The first byte that each report carried.
    fn reported(&self) -> Vec<u8> {
        self.calls.iter().map(|(_, p)| p.as_ref().unwrap().payloads[0].data[0]).collect()
    }
}

#[test]
fn process_heartbeats_and_shutdown() {
    let mut sim = Sim::new(quiet());
    let fake_task_token = vec![1, 2, 3];
    for i in 0_u8..2 {
        sim.record(fake_task_token.clone(), i, 50 * MILLI);
        sim.sleep(20 * MILLI);
    }
    sim.sleep(20 * MILLI);
    sim.shutdown();
    assert_eq!(sim.calls.len(), 2);
    assert_eq!(sim.reported(), vec![0, 1]);
    assert_eq!(sim.calls[0].0, 0);
    assert_eq!(sim.calls[1].0, 50 * MILLI);
}

#[test]
fn send_heartbeats_less_frequently_than_throttle_interval() {
    let mut sim = Sim::new(quiet());
    let fake_task_token = vec![1, 2, 3];
    for i in 0_u8..3 {
        sim.record(fake_task_token.clone(), i, 10 * MILLI);
        sim.sleep(20 * MILLI);
    }
    sim.shutdown();
    assert_eq!(sim.calls.len(), 3);
    assert_eq!(sim.reported(), vec![0, 1, 2]);
}

#[test]
fn process_tight_loop_and_shutdown() {
    let mut sim = Sim::new(quiet());
    let fake_task_token = vec![1, 2, 3];
    for i in 0_u8..50 {
        sim.record(fake_task_token.clone(), i, 2000 * MILLI);
        sim.sleep(10 * MILLI);
    }
    sim.shutdown();
    assert_eq!(sim.calls.len(), 1);
}

#[test]
fn report_heartbeat_after_timeout() {
    let mut sim = Sim::new(quiet());
    let fake_task_token = vec![1, 2, 3];
    sim.record(fake_task_token.clone(), 0, 100 * MILLI);
    sim.sleep(500 * MILLI);
    sim.record(fake_task_token, 1, 100 * MILLI);
    sim.sleep(50 * MILLI);
    sim.shutdown();
    assert_eq!(sim.calls.len(), 2);
}

#[test]
fn evict_works() {
    let mut sim = Sim::new(quiet());
    let fake_task_token = vec![1, 2, 3];
    sim.record(fake_task_token.clone(), 0, 100 * MILLI);
    sim.sleep(10 * MILLI);
    sim.evict(fake_task_token.clone(), true);
    sim.record(fake_task_token, 0, 100 * MILLI);
    sim.sleep(10 * MILLI);
    sim.shutdown();
    assert_eq!(sim.calls.len(), 2);
}

#[test]
fn evict_immediate_after_record() {
    let mut sim = Sim::new(quiet());
    let fake_task_token = vec![1, 2, 3];
    sim.record(fake_task_token.clone(), 0, 100 * MILLI);
    sim.evict(fake_task_token.clone(), true);
    sim.shutdown();
    assert_eq!(sim.calls.len(), 1);
}

#[test]
fn no_flush_on_successful_completion() {
    let mut sim = Sim::new(quiet());
    let fake_task_token = vec![1, 2, 3];
    sim.record(fake_task_token.clone(), 0, 100 * MILLI);
    sim.sleep(50 * MILLI);
    sim.record(fake_task_token.clone(), 1, 100 * MILLI);
    sim.sleep(10 * MILLI);
    sim.evict(fake_task_token, false);
    sim.shutdown();
    assert_eq!(sim.calls.len(), 1);
}

#[test]
fn heartbeat_local_timeout_increments_metric() {
    let mut sim = Sim::new(Server::Hangs);
    sim.record(vec![1, 2, 3], 0, 50 * MILLI);
    sim.sleep(11_000 * MILLI);
    sim.shutdown();
    assert_eq!(sim.local_timeouts, 1);
    assert!(sim.cancels.is_empty());
}

#[test]
fn heartbeats_go_on_after_a_local_timeout() {
    let mut sim = Sim::new(Server::Hangs);
    sim.record(vec![1, 2, 3], 0, 50 * MILLI);
    sim.record(vec![1, 2, 3], 1, 50 * MILLI);
    sim.sleep(9_999 * MILLI);
    assert_eq!(sim.calls.len(), 1);
    sim.server = quiet();
    sim.sleep(2 * MILLI);
    assert_eq!(sim.reported(), vec![0, 1]);
    assert_eq!(sim.calls[1].0, 10_000 * MILLI);
}

#[test]
fn flush_on_eviction_sends_the_latest_details() {
    let mut sim = Sim::new(quiet());
    let fake_task_token = vec![1, 2, 3];
    sim.record(fake_task_token.clone(), 0, 100 * MILLI);
    sim.sleep(50 * MILLI);
    sim.record(fake_task_token.clone(), 1, 100 * MILLI);
    sim.record(fake_task_token.clone(), 2, 100 * MILLI);
    sim.evict(fake_task_token, true);
    assert_eq!(sim.reported(), vec![0, 2]);
    sim.sleep(1000 * MILLI);
    assert_eq!(sim.calls.len(), 2);
}

#[test]
fn tasks_are_throttled_apart_from_each_other() {
    let mut sim = Sim::new(quiet());
    for i in 0_u8..4 {
        sim.record(vec![1], i, 100 * MILLI);
        sim.record(vec![2], 10 + i, 30 * MILLI);
        sim.sleep(20 * MILLI);
    }
    sim.sleep(200 * MILLI);
    assert_eq!(sim.reported(), vec![0, 10, 11, 12, 13, 3]);
}

#[test]
fn reports_stay_one_interval_apart() {
    let mut sim = Sim::new(quiet());
    for i in 0_u8..100 {
        sim.record(vec![7], i, 50 * MILLI);
        sim.sleep(7 * MILLI);
    }
    assert!(sim.calls.len() > 10);
    for i in 1..sim.calls.len() {
        assert!(sim.calls[i].0 - sim.calls[i - 1].0 >= 50 * MILLI);
    }
}

#[test]
fn server_requests_reach_the_activity() {
    let mut sim = Sim::new(Server::Fails(5));
    sim.record(vec![9], 0, 50 * MILLI);
    sim.sleep(MILLI);
    assert_eq!(sim.cancels.len(), 1);
    assert_eq!(sim.cancels[0].task_token.0, vec![9]);
    assert!(sim.cancels[0].details.is_not_found);
}

#[test]
fn a_task_has_one_job_at_a_time() {
    let mut sim = Sim::new(quiet());
    for i in 0_u8..60 {
        sim.record(vec![7], i, 50 * MILLI);
        assert_eq!(sim.jobs.len(), 1);
        sim.sleep(3 * MILLI);
        assert_eq!(sim.jobs.len(), 1);
    }
    sim.sleep(500 * MILLI);
    assert!(sim.jobs.is_empty());
}

#[test]
fn every_eviction_is_over_in_the_end() {
    let mut sim = Sim::new(quiet());
    let mut seed: u64 = 12345;
    for _ in 0..2000 {
        seed = seed.wrapping_mul(6364136223846793005).wrapping_add(1442695040888963407);
        let task = vec![(seed >> 40) as u8 % 5];
        match (seed >> 50) % 4 {
            0 => sim.evict(task, seed >> 60 < 8),
            1 => sim.sleep(u128::from(seed >> 44) % (20 * MILLI)),
            _ => sim.record(task, (seed >> 33) as u8, 10 * MILLI),
        }
    }
    sim.sleep(100 * MILLI);
    assert!(sim.jobs.is_empty());
}

#[test]
fn interval_of_the_tracking_heartbeat_spaces_the_reports() {
    let mut sim = Sim::new(quiet());
    // Tracking starts with 50 ms; the shorter interval of a later heartbeat does not count.
    sim.record(vec![7], 0, 50 * MILLI);
    sim.sleep(10 * MILLI);
    sim.record(vec![7], 1, MILLI);
    sim.sleep(90 * MILLI);
    assert_eq!(sim.calls[1].0, 50 * MILLI);
    // Nothing came in meanwhile: the task is forgotten, and its next heartbeat starts anew.
    sim.sleep(20 * MILLI);
    sim.record(vec![7], 2, 20 * MILLI);
    sim.sleep(5 * MILLI);
    sim.record(vec![7], 3, 500 * MILLI);
    sim.sleep(100 * MILLI);
    let times: Vec<u128> = sim.calls.iter().map(|(at, _)| *at / MILLI).collect();
    assert_eq!(times, vec![0, 50, 120, 140]);
    assert_eq!(sim.reported(), vec![0, 1, 2, 3]);
}
