//! The errors of a log source: what its blocking and non-blocking receive report.
use vstd::prelude::*;

verus! {

/// What follows the context in a description: the underlying cause, if any.
pub open spec fn cause_suffix(cause: Option<String>) -> Seq<char> {
    match cause {
        Some(c) => "; caused by "@ + c@,
        None => Seq::<char>::empty(),
    }
}

pub open spec fn recoverable_text(context: Seq<char>, cause: Option<String>) -> Seq<char> {
    "recoverable error: "@ + context + cause_suffix(cause)
}

pub open spec fn fatal_text(context: Seq<char>, cause: Option<String>) -> Seq<char> {
    "fatal error: "@ + context + cause_suffix(cause)
}

/// Appends a context and its optional cause to a description.
fn append_context(r: &mut String, context: &String, cause: &Option<String>)
    ensures
        final(r)@ == old(r)@ + context@ + cause_suffix(*cause),
{
    r.append(context.as_str());
    match cause {
        Some(c) => {
            r.append("; caused by ");
            r.append(c.as_str());
            assert(final(r)@ =~= old(r)@ + context@ + ("; caused by "@ + c@));
        },
        None => {
            assert(final(r)@ =~= old(r)@ + context@ + Seq::<char>::empty());
        },
    }
}

/// The error of a blocking receive.
#[derive(Debug)]
pub enum RecvError {
    /// The source will yield no more entries.
    Closed,
    /// This entry was dropped; receiving can go on.
    Recoverable { context: String, cause: Option<String> },
    /// The source failed; receiving must stop.
    Fatal { context: String, cause: Option<String> },
}

impl RecvError {
    /// A recoverable or fatal error carries a non-empty context.
    pub open spec fn well_formed(&self) -> bool {
        match self {
            RecvError::Closed => true,
            RecvError::Recoverable { context, .. } => context@.len() > 0,
            RecvError::Fatal { context, .. } => context@.len() > 0,
        }
    }

    pub open spec fn describe(&self) -> Seq<char> {
        match self {
            RecvError::Closed => "log connection closed"@,
            RecvError::Recoverable { context, cause } => recoverable_text(context@, *cause),
            RecvError::Fatal { context, cause } => fatal_text(context@, *cause),
        }
    }

    /// A one-line description of the error.
    pub fn to_string(&self) -> (r: String)
        ensures
            r@ == self.describe(),
    {
        match self {
            RecvError::Closed => String::from_str("log connection closed"),
            RecvError::Recoverable { context, cause } => {
                let mut r = String::from_str("recoverable error: ");
                append_context(&mut r, context, cause);
                r
            },
            RecvError::Fatal { context, cause } => {
                let mut r = String::from_str("fatal error: ");
                append_context(&mut r, context, cause);
                r
            },
        }
    }
}

/// The error of a non-blocking receive.
#[derive(Debug)]
pub enum TryRecvError {
    /// No entry is available right now.
    NotReady,
    /// The source will yield no more entries.
    Closed,
    /// This entry was dropped; receiving can go on.
    Recoverable { context: String, cause: Option<String> },
    /// The source failed; receiving must stop.
    Fatal { context: String, cause: Option<String> },
}

impl TryRecvError {
    /// A recoverable or fatal error carries a non-empty context.
    pub open spec fn well_formed(&self) -> bool {
        match self {
            TryRecvError::Recoverable { context, .. } => context@.len() > 0,
            TryRecvError::Fatal { context, .. } => context@.len() > 0,
            _ => true,
        }
    }

    pub open spec fn describe(&self) -> Seq<char> {
        match self {
            TryRecvError::NotReady => "log not ready"@,
            TryRecvError::Closed => "log connection closed"@,
            TryRecvError::Recoverable { context, cause } => recoverable_text(context@, *cause),
            TryRecvError::Fatal { context, cause } => fatal_text(context@, *cause),
        }
    }

    /// A one-line description of the error.
    pub fn to_string(&self) -> (r: String)
        ensures
            r@ == self.describe(),
    {
        match self {
            TryRecvError::NotReady => String::from_str("log not ready"),
            TryRecvError::Closed => String::from_str("log connection closed"),
            TryRecvError::Recoverable { context, cause } => {
                let mut r = String::from_str("recoverable error: ");
                append_context(&mut r, context, cause);
                r
            },
            TryRecvError::Fatal { context, cause } => {
                let mut r = String::from_str("fatal error: ");
                append_context(&mut r, context, cause);
                r
            },
        }
    }
}

} // verus!
