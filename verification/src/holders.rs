//! The two holder types that track the link between the halves of a pair:
//! the managed-side holder kept by the peer, and the peer-side holder kept by
//! the managed object.

use vstd::prelude::*;

use crate::managed::{ManagedObject, StrongHandle, WeakHandle};

verus! {

/// Exclusive ownership of a pair's peer-side storage. Exactly one such token
/// is minted per pair, when the construction protocol bears the peer; whoever
/// holds it (the managed object, in the managed-owned and self-owned
/// topologies, or an outside container, in the peer-owned one) decides when
/// the peer is destroyed. Affine and unforgeable.
pub struct UniquePeer {
    pub(crate) cap: (),
}

/// How an access to the peer object was granted: through the exclusively
/// owned slot, or through a non-owning reference into storage owned outside.
#[derive(Clone, Copy, Debug, PartialEq, Eq, Structural)]
pub enum PeerAccess {
    Exclusive,
    External,
}

/// The managed-side holder: how the peer half refers to the managed half.
/// Chosen at pairing time, and downgradeable from `Owned` to `Unowned`
/// exactly once, never back.
pub enum CppSubclassRustPeerHolder {
    /// A strong, owning reference: counts towards the managed object's
    /// strong-reference count and so keeps it alive.
    Owned(StrongHandle),
    /// A weak, non-owning reference: resolving it fails once the managed
    /// object has been destroyed.
    Unowned(WeakHandle),
}

impl CppSubclassRustPeerHolder {
    /// Whether resolving this holder against the managed object `m` yields a
    /// strong handle: always for an owning holder, and exactly while `m` is
    /// alive for a weak one.
    pub open spec fn spec_resolves<T>(&self, m: ManagedObject<T>) -> bool {
        self is Owned || m.is_alive()
    }

    /// Resolve the holder: an owning holder always succeeds, minting a fresh
    /// strong handle; a weak holder succeeds exactly while the managed object
    /// is still alive, and its failure is a normal, recoverable outcome.
    pub fn get<T>(&self, m: &mut ManagedObject<T>) -> (r: Option<StrongHandle>)
        requires
            old(m).wf(),
            old(m).spec_strong() < u64::MAX,
            self is Owned ==> old(m).is_alive(),
        ensures
            final(m).wf(),
            r is Some <==> self.spec_resolves(*old(m)),
            self.spec_resolves(*old(m)) ==> final(m).spec_strong() == old(m).spec_strong() + 1,
            !self.spec_resolves(*old(m)) ==> *final(m) == *old(m),
            final(m).spec_value() == old(m).spec_value(),
            final(m).spec_borrowed() == old(m).spec_borrowed(),
            final(m).spec_peer_holder() == old(m).spec_peer_holder(),
    {
        match self {
            CppSubclassRustPeerHolder::Owned(handle) => Some(m.clone_strong(handle)),
            CppSubclassRustPeerHolder::Unowned(weak) => m.upgrade(weak),
        }
    }

    /// The one-way downgrade: an owning holder becomes a weak one, releasing
    /// the strong reference it held; a weak holder passes through unchanged,
    /// so a second downgrade is a no-op. When the released reference was the
    /// last one, the managed object is destroyed on the spot and its remains
    /// (user state and peer-side holder) are handed back for the caller to
    /// finish tearing down.
    pub fn relinquish_ownership<T>(self, m: &mut ManagedObject<T>) -> (r: (
        Self,
        Option<(T, crate::holders::CppSubclassCppPeerHolder)>,
    ))
        requires
            old(m).wf(),
            self is Owned ==> old(m).spec_strong() >= 1,
            self is Owned && old(m).spec_borrowed() ==> old(m).spec_strong() >= 2,
        ensures
            final(m).wf(),
            r.0 is Unowned,
            self is Unowned ==> r.0 == self && r.1 is None && *final(m) == *old(m),
            self is Owned && old(m).spec_strong() >= 2 ==> {
                &&& r.1 is None
                &&& final(m).spec_strong() == old(m).spec_strong() - 1
                &&& final(m).spec_value() == old(m).spec_value()
                &&& final(m).spec_borrowed() == old(m).spec_borrowed()
                &&& final(m).spec_peer_holder() == old(m).spec_peer_holder()
            },
            self is Owned && old(m).spec_strong() == 1 ==> {
                &&& (old(m).spec_value() matches Some(t) && r.1 == Some(
                    (t, old(m).spec_peer_holder()),
                ))
                &&& !final(m).is_alive()
                &&& final(m).spec_strong() == 0
            },
    {
        match self {
            CppSubclassRustPeerHolder::Owned(handle) => {
                let weak = m.downgrade(&handle);
                let remains = m.release_strong(handle);
                (CppSubclassRustPeerHolder::Unowned(weak), remains)
            },
            CppSubclassRustPeerHolder::Unowned(weak) => (
                CppSubclassRustPeerHolder::Unowned(weak),
                None,
            ),
        }
    }
}

/// The peer-side holder: how the managed half refers to the peer half. It
/// transitions out of `Empty` exactly once, to `Owned` or to `Unowned`, and
/// never back.
pub enum CppSubclassCppPeerHolder {
    /// The construction protocol has not run yet; accessing the peer through
    /// an empty holder is a fatal contract violation, not a runtime condition.
    Empty,
    /// Owns the peer-side storage outright, holding the pair's one ownership
    /// token.
    Owned(UniquePeer),
    /// A non-owning reference to peer storage owned by an outside container;
    /// that storage stays at its address for the rest of the peer's life.
    Unowned,
}

impl Default for CppSubclassCppPeerHolder {
    /// A holder starts out empty, before the construction protocol has run.
    fn default() -> (r: Self)
        ensures
            r is Empty,
    {
        CppSubclassCppPeerHolder::Empty
    }
}

impl CppSubclassCppPeerHolder {
    /// Mutable access route to the peer object. Calling this on an `Empty`
    /// holder is a fatal contract violation — the construction protocol has
    /// not completed — and is excluded by precondition.
    pub fn pin_mut(&mut self) -> (r: PeerAccess)
        requires
            !(*old(self) is Empty),
        ensures
            *final(self) == *old(self),
            r is Exclusive <==> *old(self) is Owned,
    {
        match self {
            CppSubclassCppPeerHolder::Empty => unreached(),
            CppSubclassCppPeerHolder::Owned(_) => PeerAccess::Exclusive,
            CppSubclassCppPeerHolder::Unowned => PeerAccess::External,
        }
    }

    /// Read access route to the peer object; the same `Empty`-state fatal
    /// contract violation applies.
    pub fn get(&self) -> (r: PeerAccess)
        requires
            !(*self is Empty),
        ensures
            r is Exclusive <==> *self is Owned,
    {
        match self {
            CppSubclassCppPeerHolder::Empty => unreached(),
            CppSubclassCppPeerHolder::Owned(_) => PeerAccess::Exclusive,
            CppSubclassCppPeerHolder::Unowned => PeerAccess::External,
        }
    }

    /// Record exclusive ownership of a freshly constructed peer:
    /// `Empty` to `Owned`, valid only once per holder.
    pub fn set_owned(&mut self, peer: UniquePeer)
        requires
            *old(self) is Empty,
        ensures
            *final(self) == CppSubclassCppPeerHolder::Owned(peer),
    {
        *self = CppSubclassCppPeerHolder::Owned(peer);
    }

    /// Record a non-owning reference to a peer owned elsewhere: `Empty` to
    /// `Unowned`, valid only once per holder. The owning token is borrowed,
    /// not consumed: the storage it owns must stay put from here on.
    pub fn set_unowned(&mut self, peer: &mut UniquePeer)
        requires
            *old(self) is Empty,
        ensures
            *final(self) == CppSubclassCppPeerHolder::Unowned,
    {
        *self = CppSubclassCppPeerHolder::Unowned;
    }
}

} // verus!
