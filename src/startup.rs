//! The one synchronous load of every kind that seeds the presentation.
use vstd::prelude::*;
use crate::cache::StateCache;
use crate::poller::LoadError;
use crate::snapshot::{Notification, ResourceKind, Snapshot};

verus! {

/// The initial load of `kind` failed, so nothing can be presented.
#[derive(Debug, PartialEq, Eq)]
pub struct InitializationError {
    pub kind: ResourceKind,
    pub cause: LoadError,
}

/// The snapshots that the presentation is built from, in the order in
/// which it shows them: workspaces first, then providers.
#[derive(Debug)]
pub struct Presentation {
    pub workspaces: Snapshot,
    pub providers: Snapshot,
}

impl Presentation {
    /// A cache seeded with the snapshots that were presented, so that the
    /// reconciler does not announce them again.
    pub fn seed_cache(&self) -> (r: StateCache)
        ensures
            r@ == (Some(self.providers@), Some(self.workspaces@)),
    {
        StateCache::seeded(self.providers.duplicate(), self.workspaces.duplicate())
    }
}

/// Builds the presentation from one load of each kind. It needs both: the
/// first failed load, providers before workspaces, is the error.
pub fn startup_sync(
    providers: Result<Snapshot, LoadError>,
    workspaces: Result<Snapshot, LoadError>,
) -> (r: Result<Presentation, InitializationError>)
    ensures
        match (providers, workspaces) {
            (Ok(p), Ok(w)) => r matches Ok(pr) && pr.providers@ == p@ && pr.workspaces@ == w@,
            (Err(e), _) => r == Err::<Presentation, InitializationError>(
                InitializationError { kind: ResourceKind::Providers, cause: e },
            ),
            (Ok(_), Err(e)) => r == Err::<Presentation, InitializationError>(
                InitializationError { kind: ResourceKind::Workspaces, cause: e },
            ),
        },
{
    match providers {
        Err(e) => Err(InitializationError { kind: ResourceKind::Providers, cause: e }),
        Ok(p) => match workspaces {
            Err(e) => Err(InitializationError { kind: ResourceKind::Workspaces, cause: e }),
            Ok(w) => Ok(Presentation { workspaces: w, providers: p }),
        },
    }
}

/// When the presentation is rebuilt after the startup sync.
#[derive(Clone, Copy, Debug, PartialEq, Eq, Structural)]
pub enum PresentationPolicy {
    /// Only once, from the startup sync.
    AtStartup,
    /// Again after every notified change.
    OnEveryChange,
}

impl PresentationPolicy {
    /// Whether the presentation is rebuilt after reconciling an update that
    /// gave `note`.
    pub fn rebuild_after(self, note: &Option<Notification>) -> (r: bool)
        ensures
            r == (self == PresentationPolicy::OnEveryChange && note.is_some()),
    {
        match self {
            PresentationPolicy::AtStartup => false,
            PresentationPolicy::OnEveryChange => note.is_some(),
        }
    }
}

} // verus!
