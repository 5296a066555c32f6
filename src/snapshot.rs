//! Resource kinds, snapshots and the messages that carry them.
use vstd::prelude::*;

verus! {

/// The resources whose state is kept in sync.
#[derive(Clone, Copy, Debug, PartialEq, Eq, Structural)]
pub enum ResourceKind {
    Providers,
    Workspaces,
}

impl ResourceKind {
    /// The name under which changes of this kind are announced.
    pub fn event_name(self) -> (r: &'static str)
        ensures
            self == ResourceKind::Providers ==> r@ == "providers"@,
            self == ResourceKind::Workspaces ==> r@ == "workspaces"@,
    {
        match self {
            ResourceKind::Providers => "providers",
            ResourceKind::Workspaces => "workspaces",
        }
    }
}

/// The full state of one resource at one point in time, held as its
/// serialised bytes. Two snapshots are equal iff their bytes are equal.
#[derive(Debug)]
pub struct Snapshot {
    bytes: Vec<u8>,
}

impl View for Snapshot {
    type V = Seq<u8>;

    closed spec fn view(&self) -> Seq<u8> {
        self.bytes@
    }
}

impl Snapshot {
    pub fn new(bytes: Vec<u8>) -> (r: Snapshot)
        ensures
            r@ == bytes@,
    {
        Snapshot { bytes }
    }

    pub fn as_bytes(&self) -> (r: &[u8])
        ensures
            r@ == self@,
    {
        self.bytes.as_slice()
    }

    pub fn len(&self) -> (r: usize)
        ensures
            r == self@.len(),
    {
        self.bytes.len()
    }

    /// Full-value comparison of two snapshots.
    pub fn same_as(&self, other: &Snapshot) -> (r: bool)
        ensures
            r == (self@ == other@),
    {
        let n = self.bytes.len();
        if n != other.bytes.len() {
            return false;
        }
        let mut i: usize = 0;
        while i < n
            invariant
                n == self.bytes@.len(),
                n == other.bytes@.len(),
                i <= n,
                forall|j: int| 0 <= j < i ==> self.bytes@[j] == other.bytes@[j],
            decreases n - i,
        {
            if self.bytes[i] != other.bytes[i] {
                return false;
            }
            i += 1;
        }
        assert(self.bytes@ =~= other.bytes@);
        true
    }

    /// A snapshot with the same content.
    pub fn duplicate(&self) -> (r: Snapshot)
        ensures
            r@ == self@,
    {
        let mut bytes: Vec<u8> = Vec::with_capacity(self.bytes.len());
        let mut i: usize = 0;
        while i < self.bytes.len()
            invariant
                i <= self.bytes@.len(),
                bytes@ == self.bytes@.subrange(0, i as int),
            decreases self.bytes@.len() - i,
        {
            bytes.push(self.bytes[i]);
            i += 1;
            assert(bytes@ =~= self.bytes@.subrange(0, i as int));
        }
        assert(bytes@ =~= self.bytes@);
        Snapshot { bytes }
    }
}

impl PartialEq for Snapshot {
    fn eq(&self, other: &Snapshot) -> (r: bool) {
        self.same_as(other)
    }
}

impl vstd::std_specs::cmp::PartialEqSpecImpl for Snapshot {
    open spec fn obeys_eq_spec() -> bool {
        true
    }

    open spec fn eq_spec(&self, other: &Snapshot) -> bool {
        self@ == other@
    }
}

/// A snapshot tagged with the kind of resource it describes.
#[derive(Debug)]
pub enum Update {
    Providers(Snapshot),
    Workspaces(Snapshot),
}

impl View for Update {
    type V = (ResourceKind, Seq<u8>);

    open spec fn view(&self) -> (ResourceKind, Seq<u8>) {
        match self {
            Update::Providers(s) => (ResourceKind::Providers, s@),
            Update::Workspaces(s) => (ResourceKind::Workspaces, s@),
        }
    }
}

impl Update {
    pub fn new(kind: ResourceKind, snapshot: Snapshot) -> (r: Update)
        ensures
            r@ == (kind, snapshot@),
    {
        match kind {
            ResourceKind::Providers => Update::Providers(snapshot),
            ResourceKind::Workspaces => Update::Workspaces(snapshot),
        }
    }

    pub fn kind(&self) -> (r: ResourceKind)
        ensures
            r == self@.0,
    {
        match self {
            Update::Providers(_) => ResourceKind::Providers,
            Update::Workspaces(_) => ResourceKind::Workspaces,
        }
    }

    pub fn snapshot(&self) -> (r: &Snapshot)
        ensures
            r@ == self@.1,
    {
        match self {
            Update::Providers(s) => s,
            Update::Workspaces(s) => s,
        }
    }

    pub fn into_snapshot(self) -> (r: Snapshot)
        ensures
            r@ == self@.1,
    {
        match self {
            Update::Providers(s) => s,
            Update::Workspaces(s) => s,
        }
    }
}

/// A confirmed change, to be delivered to subscribers.
#[derive(Debug)]
pub struct Notification {
    pub kind: ResourceKind,
    pub snapshot: Snapshot,
}

impl View for Notification {
    type V = (ResourceKind, Seq<u8>);

    open spec fn view(&self) -> (ResourceKind, Seq<u8>) {
        (self.kind, self.snapshot@)
    }
}

} // verus!
