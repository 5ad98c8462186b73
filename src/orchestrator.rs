//! The decisions of the forwarding loop: when to stop, and what to do with
//! the outcome of each poll of the log source. The caller runs the loop,
//! performs each action and reports back what happened.
use vstd::prelude::*;

use crate::error::TryRecvError;
use crate::record::LogItem;

verus! {

/// How long the loop idles when the source has nothing new.
pub const POLL_IDLE_MILLIS: u64 = 100;

/// How long a blocking receive idles before it waits for an entry again.
pub const RECV_RETRY_MILLIS: u64 = 10;

/// The state of the forwarding loop.
#[derive(Clone, Copy, Debug, PartialEq, Eq, Structural)]
pub enum RunState {
    Running,
    Stopping,
    Stopped,
}

/// The state after one check of the shutdown flag and of the connection
/// thread.
pub open spec fn next_state_spec(
    state: RunState,
    shutdown_requested: bool,
    connection_finished: bool,
) -> RunState {
    match state {
        RunState::Running => if shutdown_requested || connection_finished {
            RunState::Stopping
        } else {
            RunState::Running
        },
        _ => RunState::Stopped,
    }
}

/// Advances the loop's state. A running loop stops when shutdown was asked
/// for or when the connection thread has finished; a stopping one has stopped.
pub fn next_state(state: RunState, shutdown_requested: bool, connection_finished: bool) -> (r:
    RunState)
    ensures
        r == next_state_spec(state, shutdown_requested, connection_finished),
{
    match state {
        RunState::Running => if shutdown_requested || connection_finished {
            RunState::Stopping
        } else {
            RunState::Running
        },
        _ => RunState::Stopped,
    }
}

/// Whether the loop may poll the source (and so publish) in this state.
pub fn may_poll(state: RunState) -> (r: bool)
    ensures
        r == (state == RunState::Running),
{
    match state {
        RunState::Running => true,
        _ => false,
    }
}

/// What the loop does with the outcome of one poll.
#[derive(Debug)]
pub enum Action {
    /// Hand the record to the publish client.
    Publish(LogItem),
    /// Nothing is there: idle this long, then poll again.
    Sleep { millis: u64 },
    /// One entry was dropped: report it and poll again at once.
    Report(TryRecvError),
    /// The source failed or closed: stop the process with this error.
    Abort(TryRecvError),
}

/// Decides what to do with the outcome of a non-blocking receive.
pub fn on_poll(outcome: Result<LogItem, TryRecvError>) -> (r: Action)
    ensures
        match outcome {
            Ok(item) => r == Action::Publish(item),
            Err(TryRecvError::NotReady) => r == (Action::Sleep { millis: POLL_IDLE_MILLIS }),
            Err(e) => match e {
                TryRecvError::Recoverable { .. } => r == Action::Report(e),
                _ => r == Action::Abort(e),
            },
        },
{
    match outcome {
        Ok(item) => Action::Publish(item),
        Err(TryRecvError::NotReady) => Action::Sleep { millis: POLL_IDLE_MILLIS },
        Err(e) => match e {
            TryRecvError::Recoverable { .. } => Action::Report(e),
            _ => Action::Abort(e),
        },
    }
}

/// Once the loop has left `Running` it never returns to it, whatever is
/// observed, and it has stopped one step later.
pub proof fn lemma_stopping_is_final(state: RunState, shutdown_requested: bool, connection_finished: bool)
    requires
        state != RunState::Running,
    ensures
        next_state_spec(state, shutdown_requested, connection_finished) == RunState::Stopped,
{
}

/// A running loop that observes a shutdown request or a finished connection
/// thread polls no more: it is stopping after that check.
pub proof fn lemma_stop_signal_ends_polling(shutdown_requested: bool, connection_finished: bool)
    requires
        shutdown_requested || connection_finished,
    ensures
        next_state_spec(RunState::Running, shutdown_requested, connection_finished)
            == RunState::Stopping,
{
}

} // verus!
