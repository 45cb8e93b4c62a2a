//! The pair itself: the peer-side slot, the assembled subclass pair, the
//! construction protocol, and the three ownership topologies.

use vstd::prelude::*;

use crate::holders::{CppSubclassCppPeerHolder, CppSubclassRustPeerHolder, UniquePeer};
use crate::managed::{ManagedObject, StrongHandle, WeakHandle};

verus! {

/// Capability expected of every peer-side state type: it takes part in a pair
/// whose managed-side holder can be relinquished (downgraded from strong to
/// weak in place). The downgrade itself is carried out against the pair, by
/// [`SubclassPair::relinquish_peer_ownership`], since the holder lives beside
/// the foreign state in the peer slot.
pub trait CppSubclassCppPeer: Sized {}

/// The peer-side half of a pair: the foreign-base state together with the
/// managed-side holder through which virtual dispatch finds the managed half.
pub struct PeerObject<P> {
    state: P,
    holder: CppSubclassRustPeerHolder,
}

impl<P> PeerObject<P> {
    /// The foreign-base state.
    pub closed spec fn spec_state(&self) -> P {
        self.state
    }

    /// The managed-side holder this peer carries.
    pub closed spec fn spec_holder(&self) -> CppSubclassRustPeerHolder {
        self.holder
    }

    /// Assemble a peer object around its managed-side holder; implementations
    /// of the construction protocol end with this, forwarding the holder they
    /// were given so the peer's managed-side reference is initialized
    /// correctly.
    pub fn new(state: P, holder: CppSubclassRustPeerHolder) -> (r: Self)
        ensures
            r.spec_state() == state,
            r.spec_holder() == holder,
    {
        PeerObject { state, holder }
    }

    /// The foreign-base state.
    pub fn state(&self) -> (r: &P)
        ensures
            *r == self.spec_state(),
    {
        &self.state
    }

    /// The managed-side holder this peer carries.
    pub fn holder(&self) -> (r: &CppSubclassRustPeerHolder)
        ensures
            *r == self.spec_holder(),
    {
        &self.holder
    }
}

/// The peer-side storage slot of one pair. Its storage is address-stable by
/// construction: once born, the peer object is only ever destroyed in place,
/// never handed out by value.
pub enum PeerSlot<P> {
    /// The construction protocol has not produced a peer yet.
    Unborn,
    /// The peer lives here.
    Alive(PeerObject<P>),
    /// The peer has been destroyed; a non-owning reference into this slot no
    /// longer resolves.
    Destroyed,
}

/// One subclass instance: the managed-side object and the peer-side slot,
/// wired together by the two holders.
pub struct SubclassPair<T, P> {
    managed: ManagedObject<T>,
    peer: PeerSlot<P>,
}

impl<T, P> SubclassPair<T, P> {
    /// The managed-side object of this pair.
    pub closed spec fn spec_managed(&self) -> ManagedObject<T> {
        self.managed
    }

    /// The peer-side slot of this pair.
    pub closed spec fn spec_peer(&self) -> PeerSlot<P> {
        self.peer
    }

    /// The peer object, when the peer half is alive.
    pub open spec fn spec_peer_obj(&self) -> PeerObject<P>
        recommends
            self.spec_peer() is Alive,
    {
        self.spec_peer()->Alive_0
    }

    /// 1 when the peer half holds a strong (owning) reference to the managed
    /// half; that edge is part of the managed object's strong count.
    pub open spec fn peer_strong_edge(&self) -> int {
        if self.spec_peer() matches PeerSlot::Alive(po) && po.spec_holder() is Owned {
            1
        } else {
            0
        }
    }

    /// 1 while a mutable borrow of the managed state is outstanding; the
    /// borrower reached it through a strong handle of its own.
    pub open spec fn borrow_edge(&self) -> int {
        if self.spec_managed().spec_borrowed() {
            1
        } else {
            0
        }
    }

    /// Well-formedness of the pair: the managed half is well-formed, its
    /// strong count covers the references the pair itself accounts for (the
    /// peer's strong holder and the outstanding borrower), and a peer-side
    /// holder that claims exclusive ownership points at a living peer.
    pub open spec fn wf(&self) -> bool {
        &&& self.spec_managed().wf()
        &&& self.spec_managed().spec_strong() >= self.peer_strong_edge() + self.borrow_edge()
        &&& (self.spec_managed().spec_peer_holder() is Owned ==> self.spec_peer() is Alive)
    }

    /// Peer-owned topology: the peer keeps the managed half alive through a
    /// strong holder, the managed half only references peer storage owned by
    /// an outside exclusive container.
    pub open spec fn peer_owned(&self) -> bool {
        &&& (self.spec_peer() matches PeerSlot::Alive(po) && po.spec_holder() is Owned)
        &&& self.spec_managed().spec_peer_holder() is Unowned
        &&& self.spec_managed().is_alive()
    }

    /// Managed-owned topology: the managed half owns the peer exclusively,
    /// the peer refers back only weakly, and an outside strong handle keeps
    /// the managed half alive.
    pub open spec fn managed_owned(&self) -> bool {
        &&& (self.spec_peer() matches PeerSlot::Alive(po) && po.spec_holder() is Unowned)
        &&& self.spec_managed().spec_peer_holder() is Owned
        &&& self.spec_managed().is_alive()
    }

    /// Self-owned topology: a deliberate cycle — the managed half owns the
    /// peer exclusively and the peer holds a strong reference back — broken
    /// only by an explicit relinquish call, never by a collector.
    pub open spec fn self_owned(&self) -> bool {
        &&& (self.spec_peer() matches PeerSlot::Alive(po) && po.spec_holder() is Owned)
        &&& self.spec_managed().spec_peer_holder() is Owned
        &&& self.spec_managed().is_alive()
    }

    /// The peer object, for calling into the foreign half.
    pub fn peer(&self) -> (r: &PeerObject<P>)
        requires
            self.spec_peer() is Alive,
        ensures
            *r == self.spec_peer_obj(),
    {
        match &self.peer {
            PeerSlot::Alive(po) => po,
            _ => unreached(),
        }
    }

    /// The peer-side holder kept by the managed object.
    pub fn peer_holder(&self) -> (r: &CppSubclassCppPeerHolder)
        ensures
            *r == self.spec_managed().spec_peer_holder(),
    {
        self.managed.peer_holder()
    }

    /// Whether the managed half is still alive.
    pub fn managed_alive(&self) -> (r: bool)
        ensures
            r == self.spec_managed().is_alive(),
    {
        self.managed.alive()
    }

    /// Whether the peer half is still alive.
    pub fn peer_alive(&self) -> (r: bool)
        ensures
            r == (self.spec_peer() is Alive),
    {
        match &self.peer {
            PeerSlot::Alive(_) => true,
            _ => false,
        }
    }

    /// The managed half's strong-reference count.
    pub fn strong_count(&self) -> (r: u64)
        ensures
            r == self.spec_managed().spec_strong(),
    {
        self.managed.strong_count()
    }

    /// Mint a further strong handle to the managed half.
    pub fn clone_strong(&mut self, handle: &StrongHandle) -> (r: StrongHandle)
        requires
            old(self).wf(),
            old(self).spec_managed().is_alive(),
            old(self).spec_managed().spec_strong() < u64::MAX,
        ensures
            final(self).wf(),
            final(self).spec_peer() == old(self).spec_peer(),
            final(self).spec_managed().spec_strong() == old(self).spec_managed().spec_strong() + 1,
            final(self).spec_managed().spec_value() == old(self).spec_managed().spec_value(),
            final(self).spec_managed().spec_borrowed() == old(self).spec_managed().spec_borrowed(),
            final(self).spec_managed().spec_peer_holder() == old(self).spec_managed().spec_peer_holder(),
    {
        self.managed.clone_strong(handle)
    }

    /// Obtain a non-owning handle to the managed half.
    pub fn downgrade(&self, handle: &StrongHandle) -> (r: WeakHandle)
        requires
            self.wf(),
            self.spec_managed().is_alive(),
    {
        self.managed.downgrade(handle)
    }

    /// Try to obtain a strong handle from a non-owning one: succeeds exactly
    /// while the managed half is alive.
    pub fn upgrade(&mut self, weak: &WeakHandle) -> (r: Option<StrongHandle>)
        requires
            old(self).wf(),
            old(self).spec_managed().spec_strong() < u64::MAX,
        ensures
            final(self).wf(),
            final(self).spec_peer() == old(self).spec_peer(),
            r is Some <==> old(self).spec_managed().is_alive(),
            old(self).spec_managed().is_alive() ==> final(self).spec_managed().spec_strong() == old(self).spec_managed().spec_strong() + 1,
            !old(self).spec_managed().is_alive() ==> final(self).spec_managed() == old(self).spec_managed(),
            final(self).spec_managed().spec_value() == old(self).spec_managed().spec_value(),
            final(self).spec_managed().spec_borrowed() == old(self).spec_managed().spec_borrowed(),
            final(self).spec_managed().spec_peer_holder() == old(self).spec_managed().spec_peer_holder(),
    {
        self.managed.upgrade(weak)
    }

    /// Drop one caller-held strong handle. When it was the last strong
    /// reference, the managed half is destroyed, and a peer it owned
    /// exclusively is destroyed along with it: in the managed-owned topology,
    /// dropping the last outside handle takes both halves down.
    pub fn drop_strong_handle(&mut self, handle: StrongHandle)
        requires
            old(self).wf(),
            old(self).spec_managed().spec_strong() >= 1 + old(self).peer_strong_edge() + old(self).borrow_edge(),
        ensures
            final(self).wf(),
            old(self).spec_managed().spec_strong() >= 2 ==> {
                &&& final(self).spec_peer() == old(self).spec_peer()
                &&& final(self).spec_managed().spec_strong() == old(self).spec_managed().spec_strong() - 1
                &&& final(self).spec_managed().spec_value() == old(self).spec_managed().spec_value()
                &&& final(self).spec_managed().spec_borrowed() == old(self).spec_managed().spec_borrowed()
                &&& final(self).spec_managed().spec_peer_holder() == old(self).spec_managed().spec_peer_holder()
            },
            old(self).spec_managed().spec_strong() == 1 ==> {
                &&& !final(self).spec_managed().is_alive()
                &&& final(self).spec_managed().spec_strong() == 0
                &&& (old(self).spec_managed().spec_peer_holder() is Owned ==> final(self).spec_peer() is Destroyed)
                &&& (!(old(self).spec_managed().spec_peer_holder() is Owned) ==> final(self).spec_peer() == old(self).spec_peer())
            },
    {
        let remains = self.managed.release_strong(handle);
        match remains {
            None => {},
            Some((_, side)) => {
                match side {
                    CppSubclassCppPeerHolder::Owned(_) => {
                        // the managed half owned the peer exclusively: the
                        // peer is destroyed in place along with it
                        let mut slot = PeerSlot::Destroyed;
                        core::mem::swap(&mut self.peer, &mut slot);
                    },
                    _ => {},
                }
            },
        }
    }

    /// Destroy the peer half from outside: the outside exclusive container is
    /// dropped, surrendering its ownership token. A strong holder the peer
    /// carried is released; when it was the last strong reference — the
    /// peer-owned topology with no outside handles — the managed half is
    /// destroyed with it.
    pub fn drop_unique_peer(&mut self, token: UniquePeer)
        requires
            old(self).wf(),
            old(self).spec_peer() is Alive,
            old(self).spec_managed().is_alive() ==> !(old(self).spec_managed().spec_peer_holder() is Owned),
        ensures
            final(self).wf(),
            final(self).spec_peer() is Destroyed,
            (old(self).spec_peer_obj().spec_holder() is Owned && old(self).spec_managed().spec_strong() == 1) ==> {
                &&& !final(self).spec_managed().is_alive()
                &&& final(self).spec_managed().spec_strong() == 0
            },
            (old(self).spec_peer_obj().spec_holder() is Owned && old(self).spec_managed().spec_strong() >= 2) ==> {
                &&& final(self).spec_managed().spec_strong() == old(self).spec_managed().spec_strong() - 1
                &&& final(self).spec_managed().spec_value() == old(self).spec_managed().spec_value()
                &&& final(self).spec_managed().spec_borrowed() == old(self).spec_managed().spec_borrowed()
                &&& final(self).spec_managed().spec_peer_holder() == old(self).spec_managed().spec_peer_holder()
            },
            old(self).spec_peer_obj().spec_holder() is Unowned ==> final(self).spec_managed()
                == old(self).spec_managed(),
    {
        let mut slot = PeerSlot::Destroyed;
        core::mem::swap(&mut self.peer, &mut slot);
        match slot {
            PeerSlot::Alive(po) => {
                let PeerObject { state: _, holder } = po;
                let (_down, remains) = holder.relinquish_ownership(&mut self.managed);
                match remains {
                    None => {},
                    Some((_, side)) => {
                        match side {
                            CppSubclassCppPeerHolder::Owned(_) => unreached(),
                            _ => {},
                        }
                    },
                }
            },
            _ => unreached(),
        }
    }

    /// Relinquish ownership from the peer side: the peer's managed-side holder
    /// is downgraded from strong to weak in place. A holder already weak makes
    /// this a no-op, so a second call is safe. When the released reference was
    /// the last one, the managed half is destroyed, and — in the self-owned
    /// topology — the peer it owned goes with it: the deliberate cycle
    /// collapses.
    pub fn relinquish_peer_ownership(&mut self)
        requires
            old(self).wf(),
            old(self).spec_peer() is Alive,
        ensures
            final(self).wf(),
            old(self).spec_peer_obj().spec_holder() is Unowned ==> *final(self) == *old(self),
            (old(self).spec_peer_obj().spec_holder() is Owned && old(self).spec_managed().spec_strong() >= 2) ==> {
                &&& final(self).spec_managed().spec_strong() == old(self).spec_managed().spec_strong() - 1
                &&& final(self).spec_managed().spec_value() == old(self).spec_managed().spec_value()
                &&& final(self).spec_managed().spec_borrowed() == old(self).spec_managed().spec_borrowed()
                &&& final(self).spec_managed().spec_peer_holder() == old(self).spec_managed().spec_peer_holder()
                &&& (final(self).spec_peer() matches PeerSlot::Alive(po) && po.spec_holder()
                    is Unowned && po.spec_state() == old(self).spec_peer_obj().spec_state())
            },
            (old(self).spec_peer_obj().spec_holder() is Owned && old(self).spec_managed().spec_strong() == 1) ==> {
                &&& !final(self).spec_managed().is_alive()
                &&& final(self).spec_managed().spec_strong() == 0
                &&& (old(self).spec_managed().spec_peer_holder() is Owned ==> final(self).spec_peer() is Destroyed)
                &&& (!(old(self).spec_managed().spec_peer_holder() is Owned) ==> (final(self).spec_peer() matches PeerSlot::Alive(po) && po.spec_holder() is Unowned
                    && po.spec_state() == old(self).spec_peer_obj().spec_state()))
            },
    {
        let mut slot = PeerSlot::Destroyed;
        core::mem::swap(&mut self.peer, &mut slot);
        match slot {
            PeerSlot::Alive(po) => {
                let PeerObject { state, holder } = po;
                let (down, remains) = holder.relinquish_ownership(&mut self.managed);
                self.peer = PeerSlot::Alive(PeerObject { state, holder: down });
                match remains {
                    None => {},
                    Some((_, side)) => {
                        match side {
                            CppSubclassCppPeerHolder::Owned(_) => {
                                // the dying managed half owned the peer: the
                                // self-owned cycle collapses entirely
                                let mut gone = PeerSlot::Destroyed;
                                core::mem::swap(&mut self.peer, &mut gone);
                            },
                            _ => {},
                        }
                    },
                }
            },
            _ => unreached(),
        }
    }

    /// Resolve the managed half from the peer side: what foreign virtual
    /// dispatch does on its way back into managed-side code. Succeeds exactly
    /// when the peer's holder resolves; the absence of a weak holder's target
    /// is the recoverable "the listener is gone" outcome.
    pub fn resolve_managed(&mut self) -> (r: Option<StrongHandle>)
        requires
            old(self).wf(),
            old(self).spec_peer() is Alive,
            old(self).spec_managed().spec_strong() < u64::MAX,
        ensures
            final(self).wf(),
            final(self).spec_peer() == old(self).spec_peer(),
            r is Some <==> old(self).spec_peer_obj().spec_holder().spec_resolves(
                old(self).spec_managed(),
            ),
            r is Some ==> final(self).spec_managed().spec_strong() == old(self).spec_managed().spec_strong() + 1,
            r is None ==> final(self).spec_managed() == old(self).spec_managed(),
            final(self).spec_managed().spec_value() == old(self).spec_managed().spec_value(),
            final(self).spec_managed().spec_borrowed() == old(self).spec_managed().spec_borrowed(),
            final(self).spec_managed().spec_peer_holder() == old(self).spec_managed().spec_peer_holder(),
    {
        let mut slot = PeerSlot::Destroyed;
        core::mem::swap(&mut self.peer, &mut slot);
        let r = match &slot {
            PeerSlot::Alive(po) => po.holder.get(&mut self.managed),
            _ => unreached(),
        };
        core::mem::swap(&mut self.peer, &mut slot);
        r
    }

    /// Take the managed state for exclusive mutation through a strong handle.
    /// A reentrant take — from within another mutable operation on the same
    /// instance — is the fatal contract violation, excluded here by
    /// precondition and detected dynamically by
    /// [`SubclassPair::try_borrow_mut`].
    pub fn borrow_mut(&mut self, handle: &StrongHandle) -> (r: T)
        requires
            old(self).wf(),
            old(self).spec_managed().spec_value() is Some,
            old(self).spec_managed().spec_strong() >= 1 + old(self).peer_strong_edge(),
        ensures
            final(self).wf(),
            final(self).spec_peer() == old(self).spec_peer(),
            Some(r) == old(self).spec_managed().spec_value(),
            final(self).spec_managed().spec_borrowed(),
            final(self).spec_managed().spec_value() is None,
            final(self).spec_managed().spec_strong() == old(self).spec_managed().spec_strong(),
            final(self).spec_managed().spec_peer_holder() == old(self).spec_managed().spec_peer_holder(),
    {
        self.managed.borrow_mut(handle)
    }

    /// Guarded variant of [`SubclassPair::borrow_mut`]: reports `None` exactly
    /// when a mutable borrow is already outstanding — the reentrant call is
    /// refused rather than silently aliased.
    pub fn try_borrow_mut(&mut self, handle: &StrongHandle) -> (r: Option<T>)
        requires
            old(self).wf(),
            old(self).spec_managed().is_alive(),
            old(self).spec_managed().spec_strong() >= 1 + old(self).peer_strong_edge(),
        ensures
            final(self).wf(),
            final(self).spec_peer() == old(self).spec_peer(),
            old(self).spec_managed().spec_borrowed() ==> r is None && final(self).spec_managed()
                == old(self).spec_managed(),
            !old(self).spec_managed().spec_borrowed() ==> {
                &&& r == old(self).spec_managed().spec_value()
                &&& r is Some
                &&& final(self).spec_managed().spec_borrowed()
                &&& final(self).spec_managed().spec_value() is None
                &&& final(self).spec_managed().spec_strong() == old(self).spec_managed().spec_strong()
                &&& final(self).spec_managed().spec_peer_holder() == old(self).spec_managed().spec_peer_holder()
            },
    {
        self.managed.try_borrow_mut(handle)
    }

    /// Return the managed state after a mutable borrow, clearing the flag.
    pub fn return_borrow(&mut self, t: T)
        requires
            old(self).wf(),
            old(self).spec_managed().spec_borrowed(),
        ensures
            final(self).wf(),
            final(self).spec_peer() == old(self).spec_peer(),
            final(self).spec_managed().spec_value() == Some(t),
            !final(self).spec_managed().spec_borrowed(),
            final(self).spec_managed().spec_strong() == old(self).spec_managed().spec_strong(),
            final(self).spec_managed().spec_peer_holder() == old(self).spec_managed().spec_peer_holder(),
    {
        self.managed.return_borrow(t)
    }

    /// Read the managed state through a strong handle.
    pub fn borrow(&self, handle: &StrongHandle) -> (r: &T)
        requires
            self.wf(),
            self.spec_managed().spec_value() is Some,
        ensures
            self.spec_managed().spec_value() == Some(*r),
    {
        self.managed.borrow(handle)
    }

    /// Mutable access to the peer-side holder kept by the managed object.
    pub fn peer_holder_mut(&mut self) -> (r: &mut CppSubclassCppPeerHolder)
        requires
            old(self).spec_managed().is_alive(),
        ensures
            *r == old(self).spec_managed().spec_peer_holder(),
            final(self).spec_managed().spec_peer_holder() == *final(r),
            final(self).spec_peer() == old(self).spec_peer(),
            final(self).spec_managed().spec_value() == old(self).spec_managed().spec_value(),
            final(self).spec_managed().spec_strong() == old(self).spec_managed().spec_strong(),
            final(self).spec_managed().spec_borrowed() == old(self).spec_managed().spec_borrowed(),
    {
        self.managed.peer_holder_mut()
    }

    /// Mutable access to the peer object, for calling into the foreign half.
    pub fn peer_mut(&mut self) -> (r: &mut PeerObject<P>)
        requires
            old(self).spec_peer() is Alive,
        ensures
            *r == old(self).spec_peer_obj(),
            final(self).spec_peer() == PeerSlot::Alive(*final(r)),
            final(self).spec_managed() == old(self).spec_managed(),
    {
        match &mut self.peer {
            PeerSlot::Alive(po) => po,
            _ => unreached(),
        }
    }
}

/// Build a pair whose peer is owned by the managed side: the shared helper
/// behind the managed-owned and self-owned constructors. With `self_owned`,
/// the managed-side holder handed to the construction protocol is strong,
/// closing the deliberate reference cycle; otherwise it is weak, so the pair
/// lives exactly as long as the returned strong handle's line of ownership.
pub fn make_owning_peer<CppPeer: CppSubclassCppPeer, Subclass: CppPeerConstructor<CppPeer>>(
    me: Subclass,
    self_owned: bool,
) -> (r: (SubclassPair<Subclass, CppPeer>, StrongHandle))
    ensures
        r.0.wf(),
        !r.0.spec_managed().spec_borrowed(),
        r.0.spec_managed().spec_value() is Some,
        self_owned ==> r.0.self_owned() && r.0.spec_managed().spec_strong() == 2,
        !self_owned ==> r.0.managed_owned() && r.0.spec_managed().spec_strong() == 1,
{
    let (mut managed, h0) = ManagedObject::new(me);
    let holder = if self_owned {
        let h1 = managed.clone_strong(&h0);
        CppSubclassRustPeerHolder::Owned(h1)
    } else {
        let weak = managed.downgrade(&h0);
        CppSubclassRustPeerHolder::Unowned(weak)
    };
    let mut me_inner = managed.borrow_mut(&h0);
    let po = me_inner.make_peer(holder);
    managed.return_borrow(me_inner);
    let token = UniquePeer { cap: () };
    let ph = managed.peer_holder_mut();
    ph.set_owned(token);
    let pair = SubclassPair { managed, peer: PeerSlot::Alive(po) };
    (pair, h0)
}

/// The construction protocol: a subclass knows how to build its peer around
/// the managed-side holder it is given. Derivable mechanically when the
/// foreign base has exactly one parameterless constructor; supplied by hand
/// when the base offers several constructors, or one that takes arguments —
/// the implementer then selects the constructor and is responsible for
/// forwarding `peer_holder` into it, so the peer's managed-side reference is
/// initialized correctly (which the postcondition demands).
pub trait CppPeerConstructor<CppPeer: CppSubclassCppPeer>: Sized {
    /// Create the peer object, forwarding `peer_holder` into it.
    fn make_peer(&mut self, peer_holder: CppSubclassRustPeerHolder) -> (r: PeerObject<CppPeer>)
        ensures
            r.spec_holder() == peer_holder,
    ;
}

/// A subclass of a foreign base class: one half of a pair whose ownership can
/// be wired in three ways — peer-owned ([`CppSubclass::new_cpp_owned`]),
/// managed-owned ([`CppSubclass::new_rust_owned`]), or self-owned
/// ([`CppSubclassSelfOwned::new_self_owned`]).
pub trait CppSubclass<CppPeer: CppSubclassCppPeer>: CppPeerConstructor<CppPeer> {
    /// Creates a new instance owned by the peer side: the returned ownership
    /// token stands for the exclusive container the caller places the peer
    /// into, the peer keeps the managed half alive through a strong holder,
    /// and the managed half records only a non-owning reference to the peer.
    fn new_cpp_owned(me: Self) -> (r: (SubclassPair<Self, CppPeer>, UniquePeer))
        ensures
            r.0.wf(),
            r.0.peer_owned(),
            r.0.spec_managed().spec_strong() == 1,
            !r.0.spec_managed().spec_borrowed(),
            r.0.spec_managed().spec_value() is Some,
    {
        let (mut managed, h0) = ManagedObject::new(me);
        let mut me_inner = managed.borrow_mut(&h0);
        let holder = CppSubclassRustPeerHolder::Owned(h0);
        let po = me_inner.make_peer(holder);
        managed.return_borrow(me_inner);
        let mut token = UniquePeer { cap: () };
        let ph = managed.peer_holder_mut();
        ph.set_unowned(&mut token);
        let pair = SubclassPair { managed, peer: PeerSlot::Alive(po) };
        (pair, token)
    }

    /// Creates a new instance owned by the managed side: the caller keeps the
    /// returned strong handle, the managed half owns the peer exclusively, and
    /// the peer refers back only weakly — no cycle, so dropping the last
    /// strong handle frees both halves.
    fn new_rust_owned(me: Self) -> (r: (SubclassPair<Self, CppPeer>, StrongHandle))
        ensures
            r.0.wf(),
            r.0.managed_owned(),
            r.0.spec_managed().spec_strong() == 1,
            !r.0.spec_managed().spec_borrowed(),
            r.0.spec_managed().spec_value() is Some,
    {
        make_owning_peer(me, false)
    }

    /// Return a reference to the peer half of this object pair.
    fn peer(pair: &SubclassPair<Self, CppPeer>) -> (r: &PeerObject<CppPeer>)
        requires
            pair.spec_peer() is Alive,
        ensures
            *r == pair.spec_peer_obj(),
    {
        pair.peer()
    }

    /// Return a mutable reference to the peer half of this object pair.
    fn peer_mut(pair: &mut SubclassPair<Self, CppPeer>) -> (r: &mut PeerObject<CppPeer>)
        requires
            old(pair).spec_peer() is Alive,
        ensures
            *r == old(pair).spec_peer_obj(),
            final(pair).spec_peer() == PeerSlot::Alive(*final(r)),
            final(pair).spec_managed() == old(pair).spec_managed(),
    {
        pair.peer_mut()
    }

    /// Return the holder through which the managed half refers to its peer.
    fn peer_holder(pair: &SubclassPair<Self, CppPeer>) -> (r: &CppSubclassCppPeerHolder)
        ensures
            *r == pair.spec_managed().spec_peer_holder(),
    {
        pair.peer_holder()
    }

    /// Return mutable access to the holder through which the managed half
    /// refers to its peer.
    fn peer_holder_mut(pair: &mut SubclassPair<Self, CppPeer>) -> (r: &mut CppSubclassCppPeerHolder)
        requires
            old(pair).spec_managed().is_alive(),
        ensures
            *r == old(pair).spec_managed().spec_peer_holder(),
            final(pair).spec_managed().spec_peer_holder() == *final(r),
            final(pair).spec_peer() == old(pair).spec_peer(),
            final(pair).spec_managed().spec_value() == old(pair).spec_managed().spec_value(),
            final(pair).spec_managed().spec_strong() == old(pair).spec_managed().spec_strong(),
            final(pair).spec_managed().spec_borrowed() == old(pair).spec_managed().spec_borrowed(),
    {
        pair.peer_holder_mut()
    }
}

/// A subclass that owns itself: neither side's outside code keeps it alive,
/// so it must be able to delete itself when some event tells it to.
pub trait CppSubclassSelfOwned<CppPeer: CppSubclassCppPeer>: CppSubclass<CppPeer> {
    /// Creates a new instance which owns itself: the managed half owns the
    /// peer exclusively and the peer holds a strong reference back — a
    /// deliberate cycle that outlives the returned handle, useful for
    /// observers that self-register and must stay until an event arrives. The
    /// returned strong handle may be dropped without destroying the pair.
    fn new_self_owned(me: Self) -> (r: (SubclassPair<Self, CppPeer>, StrongHandle))
        ensures
            r.0.wf(),
            r.0.self_owned(),
            r.0.spec_managed().spec_strong() == 2,
            !r.0.spec_managed().spec_borrowed(),
            r.0.spec_managed().spec_value() is Some,
    {
        make_owning_peer(me, true)
    }

    /// Relinquishes ownership from the peer side, downgrading the cycle's
    /// strong edge to a weak one. With no outside strong handles left this
    /// destroys both halves at once; otherwise the pair survives until the
    /// last outside handle is dropped. A second call finds the holder already
    /// weak and changes nothing.
    fn delete_self(pair: &mut SubclassPair<Self, CppPeer>)
        requires
            old(pair).wf(),
            old(pair).spec_peer() is Alive,
        ensures
            final(pair).wf(),
            old(pair).spec_peer_obj().spec_holder() is Unowned ==> *final(pair) == *old(pair),
            (old(pair).spec_peer_obj().spec_holder() is Owned && old(pair).spec_managed().spec_strong() >= 2) ==> {
                &&& final(pair).spec_managed().spec_strong() == old(pair).spec_managed().spec_strong() - 1
                &&& final(pair).spec_managed().spec_value() == old(pair).spec_managed().spec_value()
                &&& (final(pair).spec_peer() matches PeerSlot::Alive(po) && po.spec_holder()
                    is Unowned)
            },
            (old(pair).spec_peer_obj().spec_holder() is Owned && old(pair).spec_managed().spec_strong() == 1) ==> {
                &&& !final(pair).spec_managed().is_alive()
                &&& final(pair).spec_managed().spec_strong() == 0
                &&& (old(pair).spec_managed().spec_peer_holder() is Owned ==> final(pair).spec_peer() is Destroyed)
            },
    {
        pair.relinquish_peer_ownership()
    }
}

/// Convenience constructors for subclasses whose state has default values.
pub trait CppSubclassDefault<CppPeer: CppSubclassCppPeer>: CppSubclass<CppPeer> + Default {
    /// Create a managed-owned instance of this subclass from default values.
    fn default_rust_owned() -> (r: (SubclassPair<Self, CppPeer>, StrongHandle))
        ensures
            r.0.wf(),
            r.0.managed_owned(),
            r.0.spec_managed().spec_strong() == 1,
            !r.0.spec_managed().spec_borrowed(),
    {
        Self::new_rust_owned(Self::default())
    }

    /// Create a peer-owned instance of this subclass from default values.
    fn default_cpp_owned() -> (r: (SubclassPair<Self, CppPeer>, UniquePeer))
        ensures
            r.0.wf(),
            r.0.peer_owned(),
            r.0.spec_managed().spec_strong() == 1,
            !r.0.spec_managed().spec_borrowed(),
    {
        Self::new_cpp_owned(Self::default())
    }
}

/// Convenience constructor for self-owning subclasses whose state has default
/// values.
pub trait CppSubclassSelfOwnedDefault<CppPeer: CppSubclassCppPeer>: CppSubclassSelfOwned<
    CppPeer,
> + Default {
    /// Create a self-owned instance of this subclass from default values.
    fn default_self_owned() -> (r: (SubclassPair<Self, CppPeer>, StrongHandle))
        ensures
            r.0.wf(),
            r.0.self_owned(),
            r.0.spec_managed().spec_strong() == 2,
            !r.0.spec_managed().spec_borrowed(),
    {
        Self::new_self_owned(Self::default())
    }
}

} // verus!
