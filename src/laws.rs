//! Properties of reconciling a stream of updates.
use vstd::prelude::*;
use crate::cache::{cache_after, is_change, notifications_of, slot, CacheView, Message};
use crate::snapshot::ResourceKind;

verus! {

/// The snapshots of `kind` among `msgs`, in order.
pub open spec fn of_kind(msgs: Seq<Message>, kind: ResourceKind) -> Seq<Seq<u8>>
    decreases msgs.len(),
{
    if msgs.len() == 0 {
        Seq::empty()
    } else if msgs.last().0 == kind {
        of_kind(msgs.drop_last(), kind).push(msgs.last().1)
    } else {
        of_kind(msgs.drop_last(), kind)
    }
}

/// The snapshots `snaps`, each sent as an update of `kind`.
pub open spec fn tagged(kind: ResourceKind, snaps: Seq<Seq<u8>>) -> Seq<Message> {
    snaps.map_values(|s: Seq<u8>| (kind, s))
}

proof fn lemma_tagged_push(kind: ResourceKind, snaps: Seq<Seq<u8>>, s: Seq<u8>)
    ensures
        tagged(kind, snaps.push(s)).drop_last() == tagged(kind, snaps),
        tagged(kind, snaps.push(s)).last() == (kind, s),
        tagged(kind, snaps.push(s)).len() > 0,
{
    assert(tagged(kind, snaps.push(s)).drop_last() =~= tagged(kind, snaps));
}

/// Whatever the interleaving, the slot of a kind ends up as it would if only
/// the updates of that kind had been sent.
pub proof fn lemma_slot_depends_on_own_kind(c: CacheView, msgs: Seq<Message>, kind: ResourceKind)
    ensures
        slot(cache_after(c, msgs), kind) == slot(
            cache_after(c, tagged(kind, of_kind(msgs, kind))),
            kind,
        ),
    decreases msgs.len(),
{
    if msgs.len() == 0 {
        assert(tagged(kind, of_kind(msgs, kind)) =~= Seq::<Message>::empty());
    } else {
        lemma_slot_depends_on_own_kind(c, msgs.drop_last(), kind);
        if msgs.last().0 == kind {
            lemma_tagged_push(kind, of_kind(msgs.drop_last(), kind), msgs.last().1);
        }
    }
}

/// After any stream of updates, the slot of each kind holds the last
/// snapshot sent for it, and stays as it was if none was sent.
pub proof fn lemma_cache_holds_last(c: CacheView, msgs: Seq<Message>, kind: ResourceKind)
    ensures
        slot(cache_after(c, msgs), kind) == if of_kind(msgs, kind).len() == 0 {
            slot(c, kind)
        } else {
            Some(of_kind(msgs, kind).last())
        },
    decreases msgs.len(),
{
    if msgs.len() > 0 {
        lemma_cache_holds_last(c, msgs.drop_last(), kind);
    }
}

proof fn lemma_of_kind_tagged(kind: ResourceKind, snaps: Seq<Seq<u8>>)
    ensures
        of_kind(tagged(kind, snaps), kind) == snaps,
    decreases snaps.len(),
{
    if snaps.len() == 0 {
        assert(tagged(kind, snaps) =~= Seq::<Message>::empty());
    } else {
        lemma_of_kind_tagged(kind, snaps.drop_last());
        lemma_tagged_push(kind, snaps.drop_last(), snaps.last());
        assert(snaps.drop_last().push(snaps.last()) =~= snaps);
    }
}

/// After a non-empty sequence of snapshots of one kind, its slot holds the
/// last of them, however many repeats the sequence held.
pub proof fn lemma_single_kind_holds_last(c: CacheView, kind: ResourceKind, snaps: Seq<Seq<u8>>)
    requires
        snaps.len() > 0,
    ensures
        slot(cache_after(c, tagged(kind, snaps)), kind) == Some(snaps.last()),
{
    lemma_of_kind_tagged(kind, snaps);
    lemma_cache_holds_last(c, tagged(kind, snaps), kind);
}

/// Whatever the interleaving, the notifications of a kind are those that the
/// updates of that kind alone would give: none lost, none repeated.
pub proof fn lemma_notifications_depend_on_own_kind(
    c: CacheView,
    msgs: Seq<Message>,
    kind: ResourceKind,
)
    ensures
        of_kind(notifications_of(c, msgs), kind) == of_kind(
            notifications_of(c, tagged(kind, of_kind(msgs, kind))),
            kind,
        ),
    decreases msgs.len(),
{
    if msgs.len() == 0 {
        assert(tagged(kind, of_kind(msgs, kind)) =~= Seq::<Message>::empty());
    } else {
        let prev = msgs.drop_last();
        let m = msgs.last();
        lemma_notifications_depend_on_own_kind(c, prev, kind);
        lemma_slot_depends_on_own_kind(c, prev, kind);
        let earlier = notifications_of(c, prev);
        assert(earlier.push(m).drop_last() =~= earlier);
        if m.0 == kind {
            let own = tagged(kind, of_kind(prev, kind));
            lemma_tagged_push(kind, of_kind(prev, kind), m.1);
            let own_earlier = notifications_of(c, own);
            assert(own_earlier.push(m).drop_last() =~= own_earlier);
        }
    }
}

/// A snapshot equal to the last one sent for its kind gives no notification.
pub proof fn lemma_repeat_is_silent(c: CacheView, msgs: Seq<Message>, kind: ResourceKind, s: Seq<u8>)
    requires
        of_kind(msgs, kind).len() > 0,
        of_kind(msgs, kind).last() == s,
    ensures
        notifications_of(c, msgs.push((kind, s))) == notifications_of(c, msgs),
        cache_after(c, msgs.push((kind, s))) == cache_after(c, msgs),
{
    let all = msgs.push((kind, s));
    assert(all.drop_last() =~= msgs);
    lemma_cache_holds_last(c, msgs, kind);
    assert(!is_change(cache_after(c, msgs), kind, s));
}

/// Two equal snapshots of one kind in a row give one notification between
/// them at most, for the first and only if it is a change; exactly one when
/// the slot was unset.
pub proof fn lemma_equal_pair_notifies_once(c: CacheView, kind: ResourceKind, s: Seq<u8>)
    ensures
        notifications_of(c, seq![(kind, s), (kind, s)]) == if is_change(c, kind, s) {
            seq![(kind, s)]
        } else {
            Seq::<Message>::empty()
        },
        slot(c, kind) is None ==> notifications_of(c, seq![(kind, s), (kind, s)]).len() == 1,
{
    let one = seq![(kind, s)];
    let two = seq![(kind, s), (kind, s)];
    let none = Seq::<Message>::empty();
    assert(two.drop_last() =~= one);
    assert(one.drop_last() =~= none);
    assert(of_kind(none, kind) =~= Seq::<Seq<u8>>::empty());
    assert(of_kind(one, kind) == of_kind(none, kind).push(s));
    assert(of_kind(one, kind) =~= seq![s]);
    assert(cache_after(c, none) == c);
    assert(notifications_of(c, none) =~= none);
    lemma_repeat_is_silent(c, one, kind, s);
    if is_change(c, kind, s) {
        assert(Seq::<Message>::empty().push((kind, s)) =~= seq![(kind, s)]);
    }
}

} // verus!
