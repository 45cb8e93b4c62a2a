//! The primary safety invariant: a reentrant mutable access to the same
//! managed object is refused outright, never silently aliased, and the
//! round trip through the peer's holder sees mutations made before it.

use cpp_subclass::holders::CppSubclassRustPeerHolder;
use cpp_subclass::subclass::{
    CppPeerConstructor, CppSubclass, CppSubclassCppPeer, CppSubclassDefault,
    CppSubclassSelfOwned, CppSubclassSelfOwnedDefault, PeerObject,
};

struct CounterPeer;

impl CppSubclassCppPeer for CounterPeer {}

#[derive(Default)]
struct Counter {
    n: u64,
}

impl CppPeerConstructor<CounterPeer> for Counter {
    fn make_peer(&mut self, peer_holder: CppSubclassRustPeerHolder) -> PeerObject<CounterPeer> {
        PeerObject::new(CounterPeer, peer_holder)
    }
}

impl CppSubclass<CounterPeer> for Counter {}

impl CppSubclassSelfOwned<CounterPeer> for Counter {}

impl CppSubclassDefault<CounterPeer> for Counter {}

impl CppSubclassSelfOwnedDefault<CounterPeer> for Counter {}

/// Stands in for an overridden virtual method: reads the state it was
/// dispatched back into.
fn observed_value(me: &Counter) -> u64 {
    me.n
}

#[test]
fn reentrant_mutable_borrow_is_refused() {
    let (mut pair, handle) = Counter::new_rust_owned(Counter { n: 1 });
    let inner = pair.borrow_mut(&handle);
    assert!(pair.try_borrow_mut(&handle).is_none());
    pair.return_borrow(inner);
    let again = pair.try_borrow_mut(&handle);
    assert!(again.is_some());
    pair.return_borrow(again.unwrap());
    pair.drop_strong_handle(handle);
}

#[test]
fn mutation_is_visible_through_peer_dispatch() {
    let (mut pair, handle) = Counter::new_rust_owned(Counter { n: 1 });
    let mut inner = pair.borrow_mut(&handle);
    inner.n = 42;
    pair.return_borrow(inner);
    // what the peer half does when a virtual call dispatches back in:
    // resolve the managed half through its holder, then borrow the state
    let strong = pair.resolve_managed().expect("weak holder resolves while alive");
    let seen = pair.borrow_mut(&strong);
    assert_eq!(observed_value(&seen), 42);
    pair.return_borrow(seen);
    pair.drop_strong_handle(strong);
    pair.drop_strong_handle(handle);
    assert!(!pair.managed_alive());
}

#[test]
fn default_constructors_build_each_topology() {
    let (rust_pair, rust_handle) = Counter::default_rust_owned();
    assert!(rust_pair.managed_alive());
    assert_eq!(rust_pair.borrow(&rust_handle).n, 0);
    assert_eq!(rust_pair.strong_count(), 1);

    let (cpp_pair, _token) = Counter::default_cpp_owned();
    assert!(cpp_pair.managed_alive());
    assert!(cpp_pair.peer_alive());
    assert_eq!(cpp_pair.strong_count(), 1);

    let (self_pair, _handle) = Counter::default_self_owned();
    assert!(self_pair.managed_alive());
    assert_eq!(self_pair.strong_count(), 2);
}
