//! A load-testing engine, verified: virtual clients issue request cycles
//! against a shared endpoint list, their outcomes are folded into per-
//! endpoint, per-client and global counters under a proved aggregation
//! invariant, a lifecycle machine governs start, stop and finish with
//! stop-wins precedence, and a remote-control bridge turns inbound commands
//! into operations on the running test.  The asynchronous transports — HTTP,
//! the control channel, timers — live outside this crate and hand plain
//! values in and out.

pub mod endpoint;
pub mod logger;
pub mod results;
pub(crate) mod rng;
pub mod seq_sum;
pub mod text;
pub mod user;
pub mod worker;

use vstd::prelude::*;

verus! {

/// Lifecycle state shared by virtual clients, test runs and the remote bridge.
///
/// `CREATED` is the initial state; `RUNNING` is entered exactly once, when the
/// execution loop starts; `STOPPED` and `FINISHED` are terminal.  Once a value
/// is `STOPPED`, a later finish request must not overwrite it ("stop wins").
#[derive(Clone, Copy, PartialEq, Eq, Structural, Debug)]
pub enum Status {
    CREATED,
    RUNNING,
    STOPPED,
    FINISHED,
}

impl Status {
    pub fn is_terminal(&self) -> (r: bool)
        ensures
            r == (*self == Status::STOPPED || *self == Status::FINISHED),
    {
        match self {
            Status::STOPPED | Status::FINISHED => true,
            _ => false,
        }
    }
}

/// What entering the execution loop does to a status.
pub open spec fn start_transition(s: Status) -> Status {
    if s == Status::CREATED {
        Status::RUNNING
    } else {
        s
    }
}

/// What an external stop does to a status.
pub open spec fn stop_transition(s: Status) -> Status {
    Status::STOPPED
}

/// What an external finish does to a status.
pub open spec fn finish_transition(s: Status) -> Status {
    if s == Status::STOPPED {
        Status::STOPPED
    } else {
        Status::FINISHED
    }
}

/// Laws of the lifecycle machine: `RUNNING` is entered only from `CREATED`,
/// and `CREATED` is never re-entered, so the `CREATED` to `RUNNING` step can
/// happen only once; no transition leaves `STOPPED`; and once `STOPPED` has
/// been set, no later finish yields `FINISHED` — stop wins, whatever the
/// call order.
pub proof fn lemma_status_machine(s: Status)
    ensures
        start_transition(s) == Status::RUNNING ==> (s == Status::CREATED || s == Status::RUNNING),
        start_transition(s) != Status::CREATED,
        stop_transition(s) != Status::CREATED,
        finish_transition(s) != Status::CREATED,
        start_transition(Status::STOPPED) == Status::STOPPED,
        stop_transition(Status::STOPPED) == Status::STOPPED,
        finish_transition(Status::STOPPED) == Status::STOPPED,
        finish_transition(stop_transition(s)) == Status::STOPPED,
        s != Status::STOPPED ==> finish_transition(s) == Status::FINISHED,
{
}

} // verus!
