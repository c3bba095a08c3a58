# activity-heartbeat

Activities that run for long send heartbeats. This crate decides which of them reach the server, and
when:

- the first heartbeat of a task is reported at once;
- heartbeats that follow are held back for the task's throttle interval, and then the latest details
  are reported;
- a task that has nothing to report when its throttling ends is forgotten;
- a task that is over is evicted, with or without a last report of its latest details. Whoever waits
  for the eviction is told at once when no report is under way, and else when the first report for
  the task ends. Where the latest details are sent while another report is under way, that is the
  first of the two to end.

`src/` is the library, verified with Verus. `app/` runs it on `tokio`: it receives the events, sleeps,
calls the server and hands the results back. `tests/` runs the library on a clock of its own.

Shared handles (notifiers and cancellation tokens) are called through `signals::Signals`, whose view
is the history of those calls: that is how the contracts say which handle is called, and in which
order.
