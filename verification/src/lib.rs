//! Throttled activity heartbeating: the decisions that turn a stream of heartbeats, evictions and
//! completions into calls to a server, throttle timers and cancellation notices.
//!
//! The library holds the state and takes the decisions; the program around it waits, sleeps and
//! talks to the server.
//!
//! - [`stream`] holds the state of the heartbeat stream and takes in its events;
//! - [`report`] decides what follows from a job that is over;
//! - [`model`] says what each event does, [`outcomes`] what comes of it, [`laws`] what holds of the
//!   stream as a whole, and [`system`] what holds of the stream together with the jobs that it has
//!   handed out, in [`timed`] with the time that they take.
pub mod action;
mod clock;
pub mod error;
pub mod laws;
pub mod model;
pub mod outcomes;
pub mod payload;
pub mod report;
pub mod signals;
pub mod state;
pub mod stream;
pub mod system;
pub mod task_token;
pub mod timed;
pub mod token_map;
