//! Change-detecting synchronisation of resource snapshots.
//!
//! Pollers load a snapshot of each resource kind at a fixed interval and
//! forward it as an [`Update`]. A single consumer reconciles each update
//! against the [`StateCache`], replacing the cached snapshot and yielding a
//! [`Notification`] only when the snapshot actually differs.
pub mod snapshot;
pub mod cache;
pub mod laws;
pub mod poller;
pub mod startup;

pub use cache::StateCache;
pub use poller::{poll_outcome, LoadError, PollAction, POLL_INTERVAL_MS};
pub use snapshot::{Notification, ResourceKind, Snapshot, Update};
pub use startup::{startup_sync, InitializationError, Presentation, PresentationPolicy};

