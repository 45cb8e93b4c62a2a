//! The managed-side half of a subclass pair: user state under shared,
//! reference-counted ownership with a single-writer borrow discipline.

use vstd::prelude::*;

use crate::holders::CppSubclassCppPeerHolder;

verus! {

/// An owning handle to the managed-side object. Each outstanding handle is
/// counted; the object lives exactly as long as at least one strong handle
/// (or the peer's strong holder) exists. Handles are affine: they cannot be
/// copied, only minted by [`ManagedObject::clone_strong`] or
/// [`ManagedObject::upgrade`] and retired by [`ManagedObject::release_strong`].
pub struct StrongHandle {
    pub(crate) cap: (),
}

/// A non-owning handle to the managed-side object. It keeps nothing alive;
/// [`ManagedObject::upgrade`] turns it back into a strong handle exactly
/// while the object still lives.
pub struct WeakHandle {
    pub(crate) cap: (),
}

/// The managed-side object: the user's state together with the bookkeeping of
/// the shared-ownership discipline — the strong-reference count, the
/// single-writer borrow flag, and the holder through which this half refers
/// to its peer. The count and the flag are explicit state, so every lifetime
/// claim about them is stated in contracts and proved.
pub struct ManagedObject<T> {
    /// The user state; `None` once destroyed or while lent to a mutable borrower.
    value: Option<T>,
    /// How many strong references exist (caller-held handles plus, in the
    /// peer-owned and self-owned topologies, the peer's strong holder).
    strong: u64,
    /// Whether a mutable borrow of the user state is outstanding.
    borrowed: bool,
    /// The peer-side holder owned by this managed object.
    peer_side: CppSubclassCppPeerHolder,
}

impl<T> ManagedObject<T> {
    /// The user state currently stored: `None` once the object is destroyed
    /// or while it is lent out to a mutable borrower.
    pub closed spec fn spec_value(&self) -> Option<T> {
        self.value
    }

    /// The number of strong (owning) references that exist.
    pub closed spec fn spec_strong(&self) -> u64 {
        self.strong
    }

    /// Whether a mutable borrow of the user state is outstanding.
    pub closed spec fn spec_borrowed(&self) -> bool {
        self.borrowed
    }

    /// The peer-side holder owned by this managed object.
    pub closed spec fn spec_peer_holder(&self) -> CppSubclassCppPeerHolder {
        self.peer_side
    }

    /// Alive: not yet destroyed. The state is either present or temporarily
    /// lent to a mutable borrower.
    pub open spec fn is_alive(&self) -> bool {
        self.spec_value() is Some || self.spec_borrowed()
    }

    /// Well-formedness: the strong count is positive exactly while the object
    /// is alive; while a mutable borrow is outstanding the state is moved out,
    /// so no second view of it can exist; a destroyed object has surrendered
    /// its peer-side holder.
    pub open spec fn wf(&self) -> bool {
        &&& (self.spec_strong() >= 1 <==> self.is_alive())
        &&& !(self.spec_value() is Some && self.spec_borrowed())
        &&& (!self.is_alive() ==> self.spec_peer_holder() is Empty)
    }

    /// Create a managed object around `t`, with one strong reference (handed
    /// back to the caller) and an empty peer-side holder.
    pub fn new(t: T) -> (r: (ManagedObject<T>, StrongHandle))
        ensures
            r.0.wf(),
            r.0.spec_value() == Some(t),
            r.0.spec_strong() == 1,
            !r.0.spec_borrowed(),
            r.0.spec_peer_holder() is Empty,
    {
        let m = ManagedObject {
            value: Some(t),
            strong: 1,
            borrowed: false,
            peer_side: CppSubclassCppPeerHolder::Empty,
        };
        (m, StrongHandle { cap: () })
    }

    /// Mint a further strong handle: models cloning an owning reference. The
    /// argument witnesses that the caller already holds one.
    pub fn clone_strong(&mut self, handle: &StrongHandle) -> (r: StrongHandle)
        requires
            old(self).wf(),
            old(self).is_alive(),
            old(self).spec_strong() < u64::MAX,
        ensures
            final(self).wf(),
            final(self).spec_strong() == old(self).spec_strong() + 1,
            final(self).spec_value() == old(self).spec_value(),
            final(self).spec_borrowed() == old(self).spec_borrowed(),
            final(self).spec_peer_holder() == old(self).spec_peer_holder(),
    {
        self.strong = self.strong + 1;
        StrongHandle { cap: () }
    }

    /// Obtain a non-owning handle from a strong one; the count is untouched.
    pub fn downgrade(&self, handle: &StrongHandle) -> (r: WeakHandle)
        requires
            self.wf(),
            self.is_alive(),
    {
        WeakHandle { cap: () }
    }

    /// Try to obtain an owning handle from a non-owning one: succeeds exactly
    /// while the object is alive, and counts the new reference.
    pub fn upgrade(&mut self, weak: &WeakHandle) -> (r: Option<StrongHandle>)
        requires
            old(self).wf(),
            old(self).spec_strong() < u64::MAX,
        ensures
            final(self).wf(),
            r is Some <==> old(self).is_alive(),
            old(self).is_alive() ==> final(self).spec_strong() == old(self).spec_strong() + 1,
            !old(self).is_alive() ==> *final(self) == *old(self),
            final(self).spec_value() == old(self).spec_value(),
            final(self).spec_borrowed() == old(self).spec_borrowed(),
            final(self).spec_peer_holder() == old(self).spec_peer_holder(),
    {
        if self.value.is_some() || self.borrowed {
            self.strong = self.strong + 1;
            Some(StrongHandle { cap: () })
        } else {
            None
        }
    }

    /// Give up one strong handle. When it was the last one, the object is
    /// destroyed: its user state and its peer-side holder are handed back, and
    /// the caller must finish tearing down whatever that holder owns. A
    /// borrower holds a strong handle of its own, so the last handle cannot be
    /// released while a mutable borrow is outstanding.
    pub fn release_strong(&mut self, handle: StrongHandle) -> (r: Option<
        (T, CppSubclassCppPeerHolder),
    >)
        requires
            old(self).wf(),
            old(self).spec_strong() >= 1,
            old(self).spec_borrowed() ==> old(self).spec_strong() >= 2,
        ensures
            final(self).wf(),
            old(self).spec_strong() >= 2 ==> {
                &&& r is None
                &&& final(self).spec_strong() == old(self).spec_strong() - 1
                &&& final(self).spec_value() == old(self).spec_value()
                &&& final(self).spec_borrowed() == old(self).spec_borrowed()
                &&& final(self).spec_peer_holder() == old(self).spec_peer_holder()
            },
            old(self).spec_strong() == 1 ==> {
                &&& (old(self).spec_value() matches Some(t) && r == Some(
                    (t, old(self).spec_peer_holder()),
                ))
                &&& !final(self).is_alive()
                &&& final(self).spec_strong() == 0
                &&& final(self).spec_peer_holder() is Empty
            },
    {
        self.strong = self.strong - 1;
        if self.strong == 0 {
            let mut v: Option<T> = None;
            core::mem::swap(&mut self.value, &mut v);
            let mut ph = CppSubclassCppPeerHolder::Empty;
            core::mem::swap(&mut self.peer_side, &mut ph);
            match v {
                Some(t) => Some((t, ph)),
                None => unreached(),
            }
        } else {
            None
        }
    }

    /// Take the user state for exclusive mutation. Taking it while a mutable
    /// borrow is already outstanding is the reentrancy contract violation:
    /// excluded here by precondition, detected dynamically by
    /// [`ManagedObject::try_borrow_mut`].
    pub fn borrow_mut(&mut self, handle: &StrongHandle) -> (r: T)
        requires
            old(self).wf(),
            old(self).spec_value() is Some,
        ensures
            final(self).wf(),
            Some(r) == old(self).spec_value(),
            final(self).spec_borrowed(),
            final(self).spec_value() is None,
            final(self).spec_strong() == old(self).spec_strong(),
            final(self).spec_peer_holder() == old(self).spec_peer_holder(),
    {
        match self.try_borrow_mut(handle) {
            Some(t) => t,
            None => unreached(),
        }
    }

    /// Guarded variant of [`ManagedObject::borrow_mut`]: reports `None`
    /// exactly when a mutable borrow is already outstanding — the reentrant
    /// call is refused rather than silently aliased.
    pub fn try_borrow_mut(&mut self, handle: &StrongHandle) -> (r: Option<T>)
        requires
            old(self).wf(),
            old(self).is_alive(),
        ensures
            final(self).wf(),
            old(self).spec_borrowed() ==> r is None && *final(self) == *old(self),
            !old(self).spec_borrowed() ==> {
                &&& r == old(self).spec_value()
                &&& r is Some
                &&& final(self).spec_borrowed()
                &&& final(self).spec_value() is None
                &&& final(self).spec_strong() == old(self).spec_strong()
                &&& final(self).spec_peer_holder() == old(self).spec_peer_holder()
            },
    {
        if self.borrowed {
            None
        } else {
            let mut v: Option<T> = None;
            core::mem::swap(&mut self.value, &mut v);
            self.borrowed = true;
            v
        }
    }

    /// Return the user state after a mutable borrow, clearing the borrow flag.
    pub fn return_borrow(&mut self, t: T)
        requires
            old(self).wf(),
            old(self).spec_borrowed(),
        ensures
            final(self).wf(),
            final(self).spec_value() == Some(t),
            !final(self).spec_borrowed(),
            final(self).spec_strong() == old(self).spec_strong(),
            final(self).spec_peer_holder() == old(self).spec_peer_holder(),
    {
        self.value = Some(t);
        self.borrowed = false;
    }

    /// Read the user state. Refused (by precondition) while a mutable borrow
    /// is outstanding: the single-writer discipline admits no reader then.
    pub fn borrow(&self, handle: &StrongHandle) -> (r: &T)
        requires
            self.wf(),
            self.spec_value() is Some,
        ensures
            self.spec_value() == Some(*r),
    {
        match &self.value {
            Some(t) => t,
            None => unreached(),
        }
    }

    /// The peer-side holder owned by this managed object.
    pub fn peer_holder(&self) -> (r: &CppSubclassCppPeerHolder)
        ensures
            *r == self.spec_peer_holder(),
    {
        &self.peer_side
    }

    /// Mutable access to the peer-side holder, for the construction protocol
    /// to record ownership of the freshly built peer.
    pub fn peer_holder_mut(&mut self) -> (r: &mut CppSubclassCppPeerHolder)
        requires
            old(self).is_alive(),
        ensures
            *r == old(self).spec_peer_holder(),
            final(self).spec_peer_holder() == *final(r),
            final(self).spec_value() == old(self).spec_value(),
            final(self).spec_strong() == old(self).spec_strong(),
            final(self).spec_borrowed() == old(self).spec_borrowed(),
    {
        &mut self.peer_side
    }

    /// Whether the object is still alive.
    pub fn alive(&self) -> (r: bool)
        ensures
            r == self.is_alive(),
    {
        self.value.is_some() || self.borrowed
    }

    /// The current strong-reference count.
    pub fn strong_count(&self) -> (r: u64)
        ensures
            r == self.spec_strong(),
    {
        self.strong
    }

    /// Whether a mutable borrow is outstanding.
    pub fn currently_borrowed(&self) -> (r: bool)
        ensures
            r == self.spec_borrowed(),
    {
        self.borrowed
    }
}

} // verus!
