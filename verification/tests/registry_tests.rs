use cphere_backend::object_id::ObjectId;
use cphere_backend::states::app_state::AppState;
use cphere_backend::states::connection_registry::{Connection, ConnectionRegistry};
use cphere_backend::states::membership_cache::{holds, list_participants, ChatMembershipCache};

fn id(n: u64) -> ObjectId {
    ObjectId { seconds: 7, unique: n }
}

fn conn<H>(id: u128, handle: H) -> Connection<H> {
    Connection { id, handle }
}

fn handle_of<'a, H>(registry: &'a ConnectionRegistry<H>, user: ObjectId) -> Option<&'a H> {
    registry.lookup(user).map(|connection| &connection.handle)
}

#[test]
fn register_then_lookup() {
    let mut registry: ConnectionRegistry<&str> = ConnectionRegistry::new();
    assert!(!registry.is_online(id(1)));
    assert!(registry.lookup(id(1)).is_none());
    assert!(registry.register(id(1), conn(11, "first")).is_none());
    assert!(registry.is_online(id(1)));
    let found = registry.lookup(id(1)).unwrap();
    assert_eq!(found.id, 11);
    assert_eq!(found.handle, "first");
    assert!(!registry.is_online(id(2)));
}

#[test]
fn one_connection_per_user_after_many_registrations() {
    let mut registry: ConnectionRegistry<u32> = ConnectionRegistry::new();
    let mut superseded = Vec::new();
    for handle in 0..50u32 {
        if let Some(old) = registry.register(id(1), conn(handle as u128, handle)) {
            superseded.push(old.handle);
        }
        registry.register(id(100 + handle as u64), conn(1000 + handle as u128, handle));
    }
    assert_eq!(handle_of(&registry, id(1)), Some(&49));
    assert_eq!(superseded, (0..49u32).collect::<Vec<u32>>());
    for handle in 0..50u32 {
        assert_eq!(handle_of(&registry, id(100 + handle as u64)), Some(&handle));
    }
}

#[test]
fn second_registration_supersedes_the_first() {
    let mut registry: ConnectionRegistry<&str> = ConnectionRegistry::new();
    registry.register(id(1), conn(1, "first"));
    registry.register(id(2), conn(2, "other"));
    let superseded = registry.register(id(1), conn(3, "second")).unwrap();
    assert_eq!(superseded.id, 1);
    assert_eq!(superseded.handle, "first");
    assert_eq!(handle_of(&registry, id(1)), Some(&"second"));
    assert_eq!(handle_of(&registry, id(2)), Some(&"other"));
}

#[test]
fn deregister_removes_only_that_user() {
    let mut registry: ConnectionRegistry<&str> = ConnectionRegistry::new();
    registry.register(id(1), conn(1, "a"));
    registry.register(id(2), conn(2, "b"));
    assert_eq!(registry.deregister(id(1)).map(|c| c.handle), Some("a"));
    assert!(!registry.is_online(id(1)));
    assert!(registry.is_online(id(2)));
    assert!(registry.deregister(id(1)).is_none());
    assert!(registry.deregister(id(3)).is_none());
    assert!(registry.is_online(id(2)));
}

#[test]
fn release_removes_the_connection_only_if_it_is_the_registered_one() {
    let mut registry: ConnectionRegistry<&str> = ConnectionRegistry::new();
    registry.register(id(1), conn(1, "first"));
    registry.register(id(1), conn(2, "second"));
    assert!(registry.release(id(1), 1).is_none());
    assert_eq!(handle_of(&registry, id(1)), Some(&"second"));
    assert!(registry.release(id(9), 2).is_none());
    let removed = registry.release(id(1), 2).unwrap();
    assert_eq!(removed.id, 2);
    assert_eq!(removed.handle, "second");
    assert!(!registry.is_online(id(1)));
    assert!(registry.release(id(1), 2).is_none());
}

#[test]
fn users_that_differ_in_seconds_only_are_told_apart() {
    let mut registry: ConnectionRegistry<u8> = ConnectionRegistry::new();
    let a = ObjectId { seconds: 1, unique: 5 };
    let b = ObjectId { seconds: 2, unique: 5 };
    registry.register(a, conn(1, 1));
    assert!(registry.is_online(a));
    assert!(!registry.is_online(b));
}

#[test]
fn app_state_starts_empty() {
    let state: AppState<u8> = AppState::new();
    assert!(!state.ws_sessions.is_online(id(1)));
    assert!(!state.chats.contains(id(1)));
}

#[test]
fn list_participants_puts_sender_first_and_drops_repeats() {
    let list = list_participants(id(1), &vec![id(2), id(1), id(3), id(2)]);
    assert_eq!(list, vec![id(1), id(2), id(3)]);
    assert_eq!(list_participants(id(9), &vec![]), vec![id(9)]);
    assert!(holds(&list, id(3)));
    assert!(!holds(&list, id(4)));
}

#[test]
fn cache_populates_once() {
    let mut cache = ChatMembershipCache::new();
    assert!(!cache.contains(id(10)));
    assert_eq!(cache.resolve_participants(id(10)), None);
    cache.populate(id(10), id(1), &vec![id(2), id(3)]);
    assert!(cache.contains(id(10)));
    assert_eq!(cache.resolve_participants(id(10)), Some(&vec![id(1), id(2), id(3)]));
    cache.populate(id(10), id(4), &vec![id(5)]);
    assert_eq!(cache.resolve_participants(id(10)), Some(&vec![id(1), id(2), id(3)]));
    assert!(!cache.contains(id(11)));
}
