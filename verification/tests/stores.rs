use capstone_backend::entity::{Course, Entity, Role, User};
use capstone_backend::identity::{Identity, MAX_IDENTITY_BYTES};
use capstone_backend::ids::{EntityKind, IdAllocator};
use capstone_backend::store::{EntityStore, IdentityStore};

fn id_of(bytes: &[u8]) -> Identity {
    Identity::from_bytes(bytes.to_vec()).unwrap()
}

fn course(id: u64, title: &str) -> Course {
    Course {
        id,
        title: String::from(title),
        description: String::new(),
        instructor: id_of(&[1]),
        lessons: vec![String::from("intro")],
    }
}

fn user(bytes: &[u8], name: &str) -> User {
    User {
        principal: id_of(bytes),
        name: String::from(name),
        email: String::new(),
        role: Role::Student,
    }
}

#[test]
fn identity_holds_up_to_the_limit() {
    assert_eq!(MAX_IDENTITY_BYTES, 29);
    assert!(Identity::from_bytes(vec![]).is_some());
    assert!(Identity::from_bytes(vec![0xab; 29]).is_some());
    assert!(Identity::from_bytes(vec![0xab; 30]).is_none());
    let id = id_of(&[4, 5, 6]);
    assert_eq!(id.as_bytes(), &[4, 5, 6]);
}

#[test]
fn identities_compare_by_their_bytes() {
    let a = id_of(&[1, 2, 3]);
    assert!(a.same(&id_of(&[1, 2, 3])));
    assert!(!a.same(&id_of(&[1, 2, 4])));
    assert!(!a.same(&id_of(&[1, 2])));
    assert!(!a.same(&id_of(&[1, 2, 3, 0])));
    assert!(id_of(&[]).same(&id_of(&[])));
    assert_eq!(a, id_of(&[1, 2, 3]));
    assert_ne!(a, id_of(&[3, 2, 1]));
    assert_eq!(a.clone(), a);
}

#[test]
fn allocator_starts_each_kind_at_one() {
    let mut ids = IdAllocator::new();
    assert_eq!(ids.peek(EntityKind::Course), 1);
    assert!(ids.has_next(EntityKind::Course));
    assert_eq!(ids.next_id(EntityKind::Course), 1);
    assert_eq!(ids.next_id(EntityKind::Course), 2);
    assert_eq!(ids.next_id(EntityKind::Video), 1);
    assert_eq!(ids.next_id(EntityKind::Course), 3);
    assert_eq!(ids.next_id(EntityKind::Hackathon), 1);
    assert_eq!(ids.next_id(EntityKind::Video), 2);
    assert_eq!(ids.peek(EntityKind::Course), 4);
    assert_eq!(ids.peek(EntityKind::Video), 3);
    assert_eq!(ids.peek(EntityKind::Hackathon), 2);
}

#[test]
fn duplicate_gives_an_equal_entity() {
    let c = course(3, "three");
    assert_eq!(c.duplicate(), c);
    let u = user(&[8], "u");
    assert_eq!(u.duplicate(), u);
}

#[test]
fn entity_store_inserts_and_overwrites() {
    let mut store: EntityStore<Course> = EntityStore::new();
    assert!(store.list().is_empty());
    assert_eq!(store.get(1), None);
    store.insert(1, course(1, "a"));
    store.insert(2, course(2, "b"));
    assert_eq!(store.list().len(), 2);
    assert_eq!(store.get(1), Some(course(1, "a")));
    assert_eq!(store.borrow(2), Some(&course(2, "b")));
    assert_eq!(store.get(3), None);
    assert_eq!(store.borrow(3), None);
    store.insert(1, course(1, "a2"));
    assert_eq!(store.list().len(), 2);
    assert_eq!(store.get(1), Some(course(1, "a2")));
    assert_eq!(store.get(2), Some(course(2, "b")));
}

#[test]
fn entity_store_removes_and_lists() {
    let mut store: EntityStore<Course> = EntityStore::new();
    for id in 1..=4u64 {
        store.insert(id, course(id, "c"));
    }
    assert_eq!(store.remove(9), None);
    assert_eq!(store.remove(2), Some(course(2, "c")));
    assert_eq!(store.remove(2), None);
    assert_eq!(store.get(2), None);
    let mut ids: Vec<u64> = store.list().iter().map(|c| c.id).collect();
    ids.sort();
    assert_eq!(ids, vec![1, 3, 4]);
}

#[test]
fn identity_store_inserts_and_overwrites() {
    let mut store: IdentityStore<User> = IdentityStore::new();
    assert!(store.list().is_empty());
    store.insert(id_of(&[1]), user(&[1], "a"));
    store.insert(id_of(&[2]), user(&[2], "b"));
    store.insert(id_of(&[1, 0]), user(&[1, 0], "c"));
    assert_eq!(store.list().len(), 3);
    assert_eq!(store.get(&id_of(&[3])), None);
    assert_eq!(store.borrow(&id_of(&[3])), None);
    assert_eq!(store.get(&id_of(&[1])), Some(user(&[1], "a")));
    assert_eq!(store.borrow(&id_of(&[1, 0])), Some(&user(&[1, 0], "c")));
    store.insert(id_of(&[1]), user(&[1], "a2"));
    assert_eq!(store.list().len(), 3);
    assert_eq!(store.get(&id_of(&[1])), Some(user(&[1], "a2")));
    assert_eq!(store.get(&id_of(&[2])), Some(user(&[2], "b")));
}

#[test]
fn identity_store_removes_and_lists() {
    let mut store: IdentityStore<User> = IdentityStore::new();
    store.insert(id_of(&[1]), user(&[1], "a"));
    store.insert(id_of(&[2]), user(&[2], "b"));
    store.insert(id_of(&[3]), user(&[3], "c"));
    assert_eq!(store.remove(&id_of(&[7])), None);
    assert_eq!(store.remove(&id_of(&[2])), Some(user(&[2], "b")));
    assert_eq!(store.remove(&id_of(&[2])), None);
    assert_eq!(store.get(&id_of(&[2])), None);
    let mut names: Vec<String> = store.list().into_iter().map(|u| u.name).collect();
    names.sort();
    assert_eq!(names, vec!["a", "c"]);
    assert_eq!(store.get(&id_of(&[3])), Some(user(&[3], "c")));
}
