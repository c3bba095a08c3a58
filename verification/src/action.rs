//! What comes into the heartbeat stream, and what it asks to be done.
use crate::payload::Payload;
use crate::task_token::TaskToken;
use std::sync::Arc;
use tokio::sync::Notify;
use tokio_util::sync::CancellationToken;
use vstd::prelude::*;

verus! {

/// A heartbeat as an activity sends it.
#[derive(Debug)]
pub struct ActivityHeartbeat {
    pub task_token: Vec<u8>,
    pub details: Vec<Payload>,
}

/// A heartbeat on its way to the stream.
#[derive(Debug)]
pub struct ValidActivityHeartbeat {
    pub task_token: TaskToken,
    pub details: Vec<Payload>,
    /// In nanoseconds.
    pub throttle_interval: u128,
    pub timeout_resetter: Option<Arc<Notify>>,
}

/// An event that the heartbeat stream takes in.
#[derive(Debug)]
pub enum HeartbeatAction {
    /// An activity sent a heartbeat.
    SendHeartbeat(ValidActivityHeartbeat),
    /// An activity is over and its task is to be forgotten.
    Evict { token: TaskToken, on_complete: Arc<Notify>, should_flush: bool },
    /// A report to the server is over, whatever came of it.
    CompleteReport(TaskToken),
    /// A throttle timer ran out.
    CompleteThrottle(TaskToken),
}

/// A job that the heartbeat stream hands out.
#[derive(Debug)]
pub enum HeartbeatExecutorAction {
    /// Heartbeats are throttled for the named task: sleep for so many nanoseconds, or until cancelled.
    Sleep(TaskToken, u128, CancellationToken),
    /// Report a heartbeat to the server.
    Report { task_token: TaskToken, details: Vec<Payload> },
}

/// What an event says, with tokens taken by their bytes.
pub ghost enum Event {
    SendHeartbeat {
        token: Seq<u8>,
        details: Vec<Payload>,
        throttle_interval: u128,
        timeout_resetter: Option<Arc<Notify>>,
    },
    Evict { token: Seq<u8>, on_complete: Arc<Notify>, should_flush: bool },
    CompleteReport { token: Seq<u8> },
    CompleteThrottle { token: Seq<u8> },
}

impl Event {
    /// The task that the event is about.
    pub open spec fn task(self) -> Seq<u8> {
        match self {
            Event::SendHeartbeat { token, .. } => token,
            Event::Evict { token, .. } => token,
            Event::CompleteReport { token } => token,
            Event::CompleteThrottle { token } => token,
        }
    }
}

/// What a job says, with tokens taken by their bytes.
pub ghost enum Job {
    Sleep { token: Seq<u8>, nanos: u128, timer: CancellationToken },
    Report { token: Seq<u8>, details: Vec<Payload> },
}

impl View for ValidActivityHeartbeat {
    type V = Event;

    open spec fn view(&self) -> Event {
        Event::SendHeartbeat {
            token: self.task_token@,
            details: self.details,
            throttle_interval: self.throttle_interval,
            timeout_resetter: self.timeout_resetter,
        }
    }
}

impl View for HeartbeatAction {
    type V = Event;

    open spec fn view(&self) -> Event {
        match *self {
            HeartbeatAction::SendHeartbeat(hb) => hb@,
            HeartbeatAction::Evict { token, on_complete, should_flush } => Event::Evict {
                token: token@,
                on_complete,
                should_flush,
            },
            HeartbeatAction::CompleteReport(token) => Event::CompleteReport { token: token@ },
            HeartbeatAction::CompleteThrottle(token) => Event::CompleteThrottle { token: token@ },
        }
    }
}

impl View for HeartbeatExecutorAction {
    type V = Job;

    open spec fn view(&self) -> Job {
        match *self {
            HeartbeatExecutorAction::Sleep(token, nanos, timer) => Job::Sleep {
                token: token@,
                nanos,
                timer,
            },
            HeartbeatExecutorAction::Report { task_token, details } => Job::Report {
                token: task_token@,
                details,
            },
        }
    }
}

/// The job that was handed out, if any.
pub open spec fn job_of(action: Option<HeartbeatExecutorAction>) -> Option<Job> {
    match action {
        Some(a) => Some(a@),
        None => None,
    }
}

impl HeartbeatAction {
    /// The event that a heartbeat from an activity becomes.
    pub fn send_heartbeat(
        hb: ActivityHeartbeat,
        throttle_interval: u128,
        timeout_resetter: Option<Arc<Notify>>,
    ) -> (r: Self)
        ensures
            r@ == (Event::SendHeartbeat {
                token: hb.task_token@,
                details: hb.details,
                throttle_interval,
                timeout_resetter,
            }),
            r matches HeartbeatAction::SendHeartbeat(sent) && {
                &&& sent.task_token.0@ == hb.task_token@
                &&& sent.details == hb.details
                &&& sent.throttle_interval == throttle_interval
                &&& sent.timeout_resetter == timeout_resetter
            },
    {
        HeartbeatAction::SendHeartbeat(
            ValidActivityHeartbeat {
                task_token: TaskToken(hb.task_token),
                details: hb.details,
                throttle_interval,
                timeout_resetter,
            },
        )
    }
}

} // verus!
