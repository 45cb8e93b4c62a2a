//! The two holder types on their own: the one-way downgrade round trip and
//! the once-only transitions of the peer-side holder.

use cpp_subclass::holders::{CppSubclassCppPeerHolder, CppSubclassRustPeerHolder, PeerAccess};
use cpp_subclass::managed::ManagedObject;
use cpp_subclass::subclass::{CppPeerConstructor, CppSubclass, CppSubclassCppPeer, PeerObject};

struct NotePeer;

impl CppSubclassCppPeer for NotePeer {}

struct Note {
    text: &'static str,
}

impl CppPeerConstructor<NotePeer> for Note {
    fn make_peer(&mut self, peer_holder: CppSubclassRustPeerHolder) -> PeerObject<NotePeer> {
        PeerObject::new(NotePeer, peer_holder)
    }
}

impl CppSubclass<NotePeer> for Note {}

#[test]
fn relinquish_round_trip_while_alive() {
    let (mut m, handle) = ManagedObject::new(7u64);
    let second = m.clone_strong(&handle);
    let holder = CppSubclassRustPeerHolder::Owned(second);
    let (down, remains) = holder.relinquish_ownership(&mut m);
    assert!(remains.is_none());
    assert!(matches!(down, CppSubclassRustPeerHolder::Unowned(_)));
    assert_eq!(m.strong_count(), 1);
    let got = down.get(&mut m).expect("weak holder resolves while alive");
    assert_eq!(*m.borrow(&got), 7);
    let gone = m.release_strong(got);
    assert!(gone.is_none());
    let last = m.release_strong(handle);
    assert!(last.is_some());
}

#[test]
fn relinquish_round_trip_after_destruction() {
    let (mut m, handle) = ManagedObject::new(7u64);
    let holder = CppSubclassRustPeerHolder::Owned(handle);
    let (down, remains) = holder.relinquish_ownership(&mut m);
    let (value, side) = remains.expect("the released reference was the last one");
    assert_eq!(value, 7);
    assert!(matches!(side, CppSubclassCppPeerHolder::Empty));
    assert!(!m.alive());
    assert!(down.get(&mut m).is_none());
}

#[test]
fn relinquish_on_weak_holder_is_a_no_op() {
    let (mut m, handle) = ManagedObject::new(7u64);
    let weak = m.downgrade(&handle);
    let holder = CppSubclassRustPeerHolder::Unowned(weak);
    let (down, remains) = holder.relinquish_ownership(&mut m);
    assert!(remains.is_none());
    assert!(matches!(down, CppSubclassRustPeerHolder::Unowned(_)));
    assert_eq!(m.strong_count(), 1);
    assert!(m.alive());
    let last = m.release_strong(handle);
    assert!(last.is_some());
}

#[test]
fn peer_holder_starts_empty_and_transitions_once() {
    let (mut pair, mut token) = Note::new_cpp_owned(Note { text: "listener" });
    let mut fresh = CppSubclassCppPeerHolder::default();
    assert!(matches!(fresh, CppSubclassCppPeerHolder::Empty));
    fresh.set_unowned(&mut token);
    assert!(matches!(fresh, CppSubclassCppPeerHolder::Unowned));
    assert_eq!(fresh.get(), PeerAccess::External);
    assert_eq!(fresh.pin_mut(), PeerAccess::External);
    let mut owned = CppSubclassCppPeerHolder::default();
    owned.set_owned(token);
    assert!(matches!(owned, CppSubclassCppPeerHolder::Owned(_)));
    assert_eq!(owned.get(), PeerAccess::Exclusive);
    assert_eq!(owned.pin_mut(), PeerAccess::Exclusive);
    assert!(pair.managed_alive());
    let strong = pair.resolve_managed().expect("peer-owned pair resolves");
    assert_eq!(pair.borrow(&strong).text, "listener");
    pair.drop_strong_handle(strong);
}
