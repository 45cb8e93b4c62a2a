//! The three ownership topologies: construction, accessor availability, and
//! the destruction order each topology guarantees.

use cpp_subclass::holders::{CppSubclassCppPeerHolder, CppSubclassRustPeerHolder, PeerAccess};
use cpp_subclass::subclass::{
    CppPeerConstructor, CppSubclass, CppSubclassCppPeer, CppSubclassSelfOwned, PeerObject,
};

struct CounterPeer;

impl CppSubclassCppPeer for CounterPeer {}

struct Counter {
    n: u64,
}

impl CppPeerConstructor<CounterPeer> for Counter {
    fn make_peer(&mut self, peer_holder: CppSubclassRustPeerHolder) -> PeerObject<CounterPeer> {
        PeerObject::new(CounterPeer, peer_holder)
    }
}

impl CppSubclass<CounterPeer> for Counter {}

impl CppSubclassSelfOwned<CounterPeer> for Counter {}

#[test]
fn peer_owned_construction_grants_access() {
    let (mut pair, token) = Counter::new_cpp_owned(Counter { n: 5 });
    assert!(pair.managed_alive());
    assert!(pair.peer_alive());
    assert_eq!(pair.strong_count(), 1);
    assert!(matches!(pair.peer_holder(), CppSubclassCppPeerHolder::Unowned));
    assert_eq!(pair.peer_holder().get(), PeerAccess::External);
    assert_eq!(Counter::peer_holder_mut(&mut pair).pin_mut(), PeerAccess::External);
    assert!(matches!(pair.peer().holder(), CppSubclassRustPeerHolder::Owned(_)));
    pair.drop_unique_peer(token);
}

#[test]
fn rust_owned_construction_grants_access() {
    let (mut pair, handle) = Counter::new_rust_owned(Counter { n: 5 });
    assert!(pair.managed_alive());
    assert!(pair.peer_alive());
    assert_eq!(pair.strong_count(), 1);
    assert!(matches!(pair.peer_holder(), CppSubclassCppPeerHolder::Owned(_)));
    assert_eq!(pair.peer_holder().get(), PeerAccess::Exclusive);
    assert_eq!(Counter::peer_holder_mut(&mut pair).pin_mut(), PeerAccess::Exclusive);
    assert!(matches!(pair.peer().holder(), CppSubclassRustPeerHolder::Unowned(_)));
    let _peer_state: &CounterPeer = Counter::peer(&pair).state();
    let _peer_obj = Counter::peer_mut(&mut pair);
    pair.drop_strong_handle(handle);
}

#[test]
fn self_owned_construction_grants_access() {
    let (mut pair, handle) = Counter::new_self_owned(Counter { n: 5 });
    assert!(pair.managed_alive());
    assert!(pair.peer_alive());
    assert_eq!(pair.strong_count(), 2);
    assert_eq!(pair.peer_holder().get(), PeerAccess::Exclusive);
    assert_eq!(Counter::peer_holder_mut(&mut pair).pin_mut(), PeerAccess::Exclusive);
    assert!(matches!(pair.peer().holder(), CppSubclassRustPeerHolder::Owned(_)));
    pair.drop_strong_handle(handle);
    assert!(pair.managed_alive());
}

#[test]
fn peer_owned_container_drop_destroys_managed() {
    let (mut pair, token) = Counter::new_cpp_owned(Counter { n: 5 });
    let strong = pair.resolve_managed().expect("peer's strong holder resolves");
    let weak = pair.downgrade(&strong);
    pair.drop_strong_handle(strong);
    assert!(pair.managed_alive());
    pair.drop_unique_peer(token);
    assert!(!pair.peer_alive());
    assert!(!pair.managed_alive());
    assert!(pair.upgrade(&weak).is_none());
}

#[test]
fn rust_owned_last_handle_drop_destroys_both() {
    let (mut pair, handle) = Counter::new_rust_owned(Counter { n: 5 });
    pair.drop_strong_handle(handle);
    assert!(!pair.managed_alive());
    assert!(!pair.peer_alive());
}

#[test]
fn rust_owned_keeping_a_handle_keeps_both_alive() {
    let (mut pair, handle) = Counter::new_rust_owned(Counter { n: 5 });
    let extra = pair.clone_strong(&handle);
    pair.drop_strong_handle(handle);
    assert!(pair.managed_alive());
    assert!(pair.peer_alive());
    assert_eq!(pair.strong_count(), 1);
    pair.drop_strong_handle(extra);
    assert!(!pair.managed_alive());
    assert!(!pair.peer_alive());
}

#[test]
fn self_owned_delete_self_destroys_both() {
    let (mut pair, handle) = Counter::new_self_owned(Counter { n: 5 });
    pair.drop_strong_handle(handle);
    assert!(pair.managed_alive());
    assert!(pair.peer_alive());
    Counter::delete_self(&mut pair);
    assert!(!pair.managed_alive());
    assert!(!pair.peer_alive());
}

#[test]
fn self_owned_delete_self_twice_is_safe() {
    let (mut pair, handle) = Counter::new_self_owned(Counter { n: 5 });
    Counter::delete_self(&mut pair);
    assert!(pair.managed_alive());
    assert!(pair.peer_alive());
    assert_eq!(pair.strong_count(), 1);
    assert!(matches!(pair.peer().holder(), CppSubclassRustPeerHolder::Unowned(_)));
    Counter::delete_self(&mut pair);
    assert!(pair.managed_alive());
    assert_eq!(pair.strong_count(), 1);
    pair.drop_strong_handle(handle);
    assert!(!pair.managed_alive());
    assert!(!pair.peer_alive());
}
