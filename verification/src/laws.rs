//! The lifecycle laws that cut across several operations, stated and proved
//! once over the spec-level state of the pair.

use vstd::prelude::*;

use crate::holders::CppSubclassRustPeerHolder;
use crate::managed::ManagedObject;
use crate::subclass::SubclassPair;

verus! {

/// Law: in each of the three topologies — that is, after any of the three
/// constructions — the accessors are available without a fatal failure: the
/// peer-side holder has left its `Empty` state, the peer half is alive, and
/// the managed half is alive, which is exactly what the preconditions of
/// `peer_holder().get()`, `peer_holder_mut().pin_mut()` and `peer()` ask.
pub proof fn lemma_constructed_accessors_available<T, P>(pair: SubclassPair<T, P>)
    requires
        pair.wf(),
        pair.peer_owned() || pair.managed_owned() || pair.self_owned(),
    ensures
        !(pair.spec_managed().spec_peer_holder() is Empty),
        pair.spec_peer() is Alive,
        pair.spec_managed().is_alive(),
{
}

/// Law: while a mutable borrow of the managed state is outstanding, the cell
/// is empty — no second mutable view of the state can exist, so a reentrant
/// mutable access can only be refused (by `try_borrow_mut` returning `None`),
/// never silently aliased.
pub proof fn lemma_reentrant_borrow_excluded<T>(m: ManagedObject<T>)
    requires
        m.wf(),
        m.spec_borrowed(),
    ensures
        m.spec_value() is None,
{
}

/// Law: relinquishing ownership is a one-way downgrade. The weak holder it
/// leaves behind still finds the managed object while that object lives, and
/// reports absence once it has been destroyed — the round trip preserves
/// identity (there is one managed object per pair) but not liveness.
pub proof fn lemma_relinquish_round_trip<T>(
    down: CppSubclassRustPeerHolder,
    live: ManagedObject<T>,
    dead: ManagedObject<T>,
)
    requires
        down is Unowned,
        live.is_alive(),
        !dead.is_alive(),
    ensures
        down.spec_resolves(live),
        !down.spec_resolves(dead),
{
}

} // verus!
