//! What a poller does with the outcome of one load.
use vstd::prelude::*;
use crate::cache::Message;
use crate::snapshot::{ResourceKind, Snapshot, Update};

verus! {

/// Milliseconds a poller sleeps between the end of one load and the start
/// of the next.
pub const POLL_INTERVAL_MS: u64 = 1000;

/// A load that did not produce a snapshot.
#[derive(Debug, PartialEq, Eq)]
pub struct LoadError {
    pub message: String,
}

/// The next step of a poller after one load attempt.
#[derive(Debug)]
pub enum PollAction {
    /// Forward this update to the reconciler, then sleep.
    Send(Update),
    /// Nothing to forward: sleep and try again.
    Retry,
}

pub open spec fn action_view(a: PollAction) -> Option<Message> {
    match a {
        PollAction::Send(u) => Some(u@),
        PollAction::Retry => None,
    }
}

/// A successful load is forwarded tagged with its kind; a failed one is
/// skipped, and the poller keeps running.
pub fn poll_outcome(kind: ResourceKind, loaded: Result<Snapshot, LoadError>) -> (r: PollAction)
    ensures
        action_view(r) == match loaded {
            Ok(s) => Some((kind, s@)),
            Err(_) => None::<Message>,
        },
{
    match loaded {
        Ok(s) => PollAction::Send(Update::new(kind, s)),
        Err(_) => PollAction::Retry,
    }
}

} // verus!
