//! The shared state cache and the reconciler that is its only writer.
use vstd::prelude::*;
use crate::snapshot::{Notification, ResourceKind, Snapshot, Update};

verus! {

/// The model of the cache: the last accepted snapshot of each kind, or
/// `None` while the slot is unset.
pub type CacheView = (Option<Seq<u8>>, Option<Seq<u8>>);

/// The model of an update or a notification: a kind and a snapshot.
pub type Message = (ResourceKind, Seq<u8>);

pub open spec fn slot(c: CacheView, kind: ResourceKind) -> Option<Seq<u8>> {
    match kind {
        ResourceKind::Providers => c.0,
        ResourceKind::Workspaces => c.1,
    }
}

/// The cache with the slot of `kind` set to `s` and the other slot kept.
pub open spec fn store(c: CacheView, kind: ResourceKind, s: Seq<u8>) -> CacheView {
    match kind {
        ResourceKind::Providers => (Some(s), c.1),
        ResourceKind::Workspaces => (c.0, Some(s)),
    }
}

/// A snapshot is a change unless the slot of its kind already holds it.
pub open spec fn is_change(c: CacheView, kind: ResourceKind, s: Seq<u8>) -> bool {
    slot(c, kind) != Some(s)
}

/// The cache after reconciling `msgs` in order, starting from `c`.
pub open spec fn cache_after(c: CacheView, msgs: Seq<Message>) -> CacheView
    decreases msgs.len(),
{
    if msgs.len() == 0 {
        c
    } else {
        store(cache_after(c, msgs.drop_last()), msgs.last().0, msgs.last().1)
    }
}

/// The notifications emitted while reconciling `msgs` in order, starting
/// from `c`: each message that is a change against the cache it meets.
pub open spec fn notifications_of(c: CacheView, msgs: Seq<Message>) -> Seq<Message>
    decreases msgs.len(),
{
    if msgs.len() == 0 {
        Seq::empty()
    } else {
        let earlier = notifications_of(c, msgs.drop_last());
        if is_change(cache_after(c, msgs.drop_last()), msgs.last().0, msgs.last().1) {
            earlier.push(msgs.last())
        } else {
            earlier
        }
    }
}

pub open spec fn opt_view(o: Option<Snapshot>) -> Option<Seq<u8>> {
    match o {
        Some(s) => Some(s@),
        None => None,
    }
}

pub open spec fn note_view(o: Option<Notification>) -> Option<Message> {
    match o {
        Some(n) => Some(n@),
        None => None,
    }
}

pub open spec fn update_views(s: Seq<Update>) -> Seq<Message> {
    s.map_values(|u: Update| u@)
}

pub open spec fn note_views(s: Seq<Notification>) -> Seq<Message> {
    s.map_values(|n: Notification| n@)
}

/// Last known snapshot of each resource kind.
#[derive(Debug)]
pub struct StateCache {
    providers: Option<Snapshot>,
    workspaces: Option<Snapshot>,
}

impl View for StateCache {
    type V = CacheView;

    closed spec fn view(&self) -> CacheView {
        (opt_view(self.providers), opt_view(self.workspaces))
    }
}

/// Sets `slot` to `snapshot`, and returns a copy of it unless the slot
/// already held an equal snapshot.
fn replace_if_changed(slot: &mut Option<Snapshot>, snapshot: Snapshot) -> (r: Option<Snapshot>)
    ensures
        opt_view(*final(slot)) == Some(snapshot@),
        opt_view(r) == if opt_view(*old(slot)) == Some(snapshot@) {
            None::<Seq<u8>>
        } else {
            Some(snapshot@)
        },
{
    let unchanged = match &*slot {
        Some(current) => current.same_as(&snapshot),
        None => false,
    };
    if unchanged {
        None
    } else {
        let announced = snapshot.duplicate();
        *slot = Some(snapshot);
        Some(announced)
    }
}

impl StateCache {
    /// A cache with every slot unset.
    pub fn new() -> (r: StateCache)
        ensures
            r@ == (None::<Seq<u8>>, None::<Seq<u8>>),
    {
        StateCache { providers: None, workspaces: None }
    }

    /// A cache seeded with one snapshot of each kind.
    pub fn seeded(providers: Snapshot, workspaces: Snapshot) -> (r: StateCache)
        ensures
            r@ == (Some(providers@), Some(workspaces@)),
    {
        StateCache { providers: Some(providers), workspaces: Some(workspaces) }
    }

    /// A copy of the last known snapshot of `kind`, if any.
    pub fn get(&self, kind: ResourceKind) -> (r: Option<Snapshot>)
        ensures
            opt_view(r) == slot(self@, kind),
    {
        let current = match kind {
            ResourceKind::Providers => &self.providers,
            ResourceKind::Workspaces => &self.workspaces,
        };
        match current {
            Some(s) => Some(s.duplicate()),
            None => None,
        }
    }

    /// Reconciles one update: the slot of its kind ends up holding its
    /// snapshot, and a notification comes back iff that is a change.
    pub fn reconcile(&mut self, update: Update) -> (r: Option<Notification>)
        ensures
            final(self)@ == store(old(self)@, update@.0, update@.1),
            note_view(r) == if is_change(old(self)@, update@.0, update@.1) {
                Some(update@)
            } else {
                None::<Message>
            },
    {
        let kind = update.kind();
        let snapshot = update.into_snapshot();
        let changed = match kind {
            ResourceKind::Providers => replace_if_changed(&mut self.providers, snapshot),
            ResourceKind::Workspaces => replace_if_changed(&mut self.workspaces, snapshot),
        };
        match changed {
            Some(s) => Some(Notification { kind, snapshot: s }),
            None => None,
        }
    }

    /// Reconciles `updates` in order and returns the notifications they
    /// give rise to, in order.
    pub fn reconcile_batch(&mut self, updates: Vec<Update>) -> (r: Vec<Notification>)
        ensures
            final(self)@ == cache_after(old(self)@, update_views(updates@)),
            note_views(r@) == notifications_of(old(self)@, update_views(updates@)),
    {
        let ghost start = self@;
        let ghost all = update_views(updates@);
        let mut rest = updates;
        let mut out: Vec<Notification> = Vec::new();
        let ghost mut done: int = 0;
        proof {
            assert(all.subrange(0, 0) =~= Seq::<Message>::empty());
            assert(update_views(rest@) =~= all.subrange(0, all.len() as int));
            assert(note_views(out@) =~= Seq::<Message>::empty());
        }
        while rest.len() > 0
            invariant
                0 <= done <= all.len(),
                update_views(rest@) == all.subrange(done, all.len() as int),
                self@ == cache_after(start, all.subrange(0, done)),
                note_views(out@) == notifications_of(start, all.subrange(0, done)),
            decreases rest.len(),
        {
            let ghost before = rest@;
            let update = rest.remove(0);
            proof {
                assert(update_views(before).len() == before.len());
                assert(update_views(before)[0] == before[0]@);
                assert(all.subrange(done, all.len() as int)[0] == all[done]);
                assert(rest@ =~= before.subrange(1, before.len() as int));
                assert(update == before[0]);
                assert(update_views(before)[0] == all[done]);
                assert forall|j: int| 0 <= j < rest@.len() implies update_views(rest@)[j]
                    == all[done + 1 + j] by {
                    assert(update_views(before)[j + 1] == all.subrange(done, all.len() as int)[j + 1]);
                }
                assert(update_views(rest@) =~= all.subrange(done + 1, all.len() as int));
                let prefix = all.subrange(0, done + 1);
                assert(prefix.drop_last() =~= all.subrange(0, done));
                assert(prefix.last() == update@);
            }
            let note = self.reconcile(update);
            match note {
                Some(n) => {
                    out.push(n);
                },
                None => {},
            }
            proof {
                done = done + 1;
                assert(note_views(out@) =~= notifications_of(start, all.subrange(0, done)));
            }
        }
        proof {
            assert(all.subrange(0, done) =~= all);
        }
        out
    }
}

} // verus!
