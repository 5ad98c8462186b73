//! What a log source reports, given the outcome of one read of its cursor.
use vstd::prelude::*;

use crate::error::{RecvError, TryRecvError};
use crate::mapping::{entry_rejected, entry_to_log_item, mapped_item};
use crate::record::{LogItem, Timestamp};

verus! {

/// The context of the error reported when the source itself fails.
pub open spec fn read_failure_context() -> Seq<char> {
    "failed to read from journal"@
}

/// The outcome of a non-blocking receive. `read` is what one read of the
/// cursor gave: an entry, nothing new, or the description of a source failure;
/// `now` is the time of the read.
pub fn try_recv_outcome(read: Result<Option<Vec<(String, String)>>, String>, now: Timestamp) -> (r:
    Result<LogItem, TryRecvError>)
    ensures
        r is Err ==> r->Err_0.well_formed(),
        match read {
            Err(failure) => match r {
                Err(TryRecvError::Fatal { context, cause }) => context@ == read_failure_context()
                    && cause == Some(failure),
                _ => false,
            },
            Ok(None) => r matches Err(TryRecvError::NotReady),
            Ok(Some(entry)) => match r {
                Ok(item) => !entry_rejected(entry@) && item@ == mapped_item(entry@, now),
                Err(TryRecvError::Recoverable { context, cause }) => entry_rejected(entry@)
                    && cause is None,
                _ => false,
            },
        },
{
    proof {
        reveal_strlit("failed to read from journal");
    }
    match read {
        Ok(Some(entry)) => match entry_to_log_item(entry, now) {
            Ok(item) => Ok(item),
            Err(context) => Err(TryRecvError::Recoverable { context, cause: None }),
        },
        Ok(None) => Err(TryRecvError::NotReady),
        Err(failure) => Err(
            TryRecvError::Fatal {
                context: String::from_str("failed to read from journal"),
                cause: Some(failure),
            },
        ),
    }
}

/// The outcome of one round of a blocking receive, given what a wait for the
/// next entry gave. `None` means that nothing came and the caller waits again.
pub fn recv_outcome(read: Result<Option<Vec<(String, String)>>, String>, now: Timestamp) -> (r:
    Option<Result<LogItem, RecvError>>)
    ensures
        r matches Some(Err(e)) ==> e.well_formed(),
        match read {
            Err(failure) => match r {
                Some(Err(RecvError::Fatal { context, cause })) => context@ == read_failure_context()
                    && cause == Some(failure),
                _ => false,
            },
            Ok(None) => r is None,
            Ok(Some(entry)) => match r {
                Some(Ok(item)) => !entry_rejected(entry@) && item@ == mapped_item(entry@, now),
                Some(Err(RecvError::Recoverable { context, cause })) => entry_rejected(entry@)
                    && cause is None,
                _ => false,
            },
        },
{
    proof {
        reveal_strlit("failed to read from journal");
    }
    match read {
        Ok(Some(entry)) => match entry_to_log_item(entry, now) {
            Ok(item) => Some(Ok(item)),
            Err(context) => Some(Err(RecvError::Recoverable { context, cause: None })),
        },
        Ok(None) => None,
        Err(failure) => Some(
            Err(
                RecvError::Fatal {
                    context: String::from_str("failed to read from journal"),
                    cause: Some(failure),
                },
            ),
        ),
    }
}

} // verus!
