use capstone_backend::entity::{Course, Hackathon, Role, User, Video};
use capstone_backend::error::RegistryError;
use capstone_backend::identity::Identity;
use capstone_backend::ids::EntityKind;
use capstone_backend::registry::Registry;

fn who(tag: u8) -> Identity {
    Identity::from_bytes(vec![tag, 7, 7]).unwrap()
}

fn text(s: &str) -> String {
    String::from(s)
}

fn person(tag: u8, name: &str, role: Role) -> User {
    User { principal: who(tag), name: text(name), email: format!("{name}@x.com"), role }
}

fn sorted(mut ids: Vec<u64>) -> Vec<u64> {
    ids.sort();
    ids
}

#[test]
fn new_registry_is_empty() {
    let reg = Registry::new();
    assert!(reg.get_all_users().is_empty());
    assert!(reg.list_courses().is_empty());
    assert!(reg.list_videos().is_empty());
    assert!(reg.list_hackathons().is_empty());
    assert_eq!(reg.get_user(&who(1)), None);
    assert_eq!(reg.get_course(1), None);
    assert_eq!(reg.get_video(1), None);
    assert_eq!(reg.get_hackathon(1), None);
    assert!(reg.has_free_id(EntityKind::Course));
    assert!(reg.has_free_id(EntityKind::Video));
    assert!(reg.has_free_id(EntityKind::Hackathon));
}

#[test]
fn course_ids_increase_across_deletions() {
    let mut reg = Registry::new();
    let a = who(1);
    let first = reg.create_course(&a, text("A"), text(""), vec![]);
    let second = reg.create_course(&a, text("B"), text(""), vec![]);
    assert_eq!(first.id, 1);
    assert_eq!(second.id, 2);
    assert_eq!(reg.delete_course(&a, 2), Ok(()));
    assert_eq!(reg.delete_course(&a, 1), Ok(()));
    let third = reg.create_course(&a, text("C"), text(""), vec![]);
    assert_eq!(third.id, 3);
    let fourth = reg.create_course(&who(2), text("D"), text(""), vec![]);
    assert_eq!(fourth.id, 4);
    assert_eq!(sorted(reg.list_courses().iter().map(|c| c.id).collect()), vec![3, 4]);
}

#[test]
fn each_kind_counts_its_own_identifiers() {
    let mut reg = Registry::new();
    let a = who(1);
    assert_eq!(reg.create_course(&a, text("c1"), text(""), vec![]).id, 1);
    assert_eq!(reg.create_course(&a, text("c2"), text(""), vec![]).id, 2);
    assert_eq!(reg.upload_video(&a, text("v1"), text("u"), None, text("")).unwrap().id, 1);
    assert_eq!(reg.create_hackathon(&a, text("h1"), text(""), text("s"), text("e")).id, 1);
    assert_eq!(reg.upload_video(&a, text("v2"), text("u"), Some(2), text("")).unwrap().id, 2);
    assert_eq!(reg.create_course(&a, text("c3"), text(""), vec![]).id, 3);
}

#[test]
fn register_then_get_user() {
    let mut reg = Registry::new();
    let caller = who(1);
    let made = reg.register_user(&caller, text("Alice"), text("a@x.com"));
    let want = User {
        principal: who(1),
        name: text("Alice"),
        email: text("a@x.com"),
        role: Role::Student,
    };
    assert_eq!(made, want);
    assert_eq!(reg.get_user(&caller), Some(want));
    assert_eq!(reg.get_user(&who(2)), None);
    assert_eq!(reg.get_all_users().len(), 1);
}

#[test]
fn register_user_keeps_an_existing_record() {
    let mut reg = Registry::with_users(vec![person(9, "root", Role::Admin)]);
    let back = reg.register_user(&who(9), text("Mallory"), text("m@x.com"));
    assert_eq!(back, person(9, "root", Role::Admin));
    assert_eq!(reg.get_user(&who(9)), Some(person(9, "root", Role::Admin)));
    assert_eq!(reg.get_all_users().len(), 1);

    let first = reg.register_user(&who(1), text("Alice"), text("a@x.com"));
    let again = reg.register_user(&who(1), text("Alicia"), text("b@x.com"));
    assert_eq!(again, first);
    assert_eq!(reg.get_all_users().len(), 2);
}

#[test]
fn update_user_registers_an_unknown_caller() {
    let mut reg = Registry::new();
    let made = reg.update_user(&who(3), text("Carol"), text("c@x.com"));
    let want = User {
        principal: who(3),
        name: text("Carol"),
        email: text("c@x.com"),
        role: Role::Student,
    };
    assert_eq!(made, want);
    assert_eq!(reg.get_user(&who(3)), Some(want));
}

#[test]
fn update_user_changes_name_and_email_and_keeps_the_role() {
    let mut reg = Registry::with_users(vec![
        person(1, "ann", Role::Instructor),
        person(2, "bob", Role::Student),
    ]);
    let changed = reg.update_user(&who(1), text("Ann B."), text("ann@y.org"));
    let want = User {
        principal: who(1),
        name: text("Ann B."),
        email: text("ann@y.org"),
        role: Role::Instructor,
    };
    assert_eq!(changed, want);
    assert_eq!(reg.get_user(&who(1)), Some(want));
    assert_eq!(reg.get_user(&who(2)), Some(person(2, "bob", Role::Student)));
    assert_eq!(reg.get_all_users().len(), 2);
}

#[test]
fn with_users_takes_the_later_of_two_records() {
    let reg = Registry::with_users(vec![
        person(1, "first", Role::Student),
        person(2, "other", Role::Instructor),
        person(1, "second", Role::Admin),
    ]);
    assert_eq!(reg.get_user(&who(1)), Some(person(1, "second", Role::Admin)));
    assert_eq!(reg.get_user(&who(2)), Some(person(2, "other", Role::Instructor)));
    assert_eq!(reg.get_all_users().len(), 2);
    assert_eq!(reg.get_user(&who(3)), None);
    assert!(reg.list_courses().is_empty());
}

#[test]
fn create_course_records_the_caller_as_instructor() {
    let mut reg = Registry::new();
    let made = reg.create_course(
        &who(1),
        text("Rust 101"),
        text("Ownership first"),
        vec![text("Moves"), text("Borrows")],
    );
    let want = Course {
        id: 1,
        title: text("Rust 101"),
        description: text("Ownership first"),
        instructor: who(1),
        lessons: vec![text("Moves"), text("Borrows")],
    };
    assert_eq!(made, want);
    assert_eq!(reg.get_course(1), Some(want));
    assert_eq!(reg.get_course(2), None);
}

#[test]
fn update_course_requires_the_instructor() {
    let mut reg = Registry::new();
    let made = reg.create_course(&who(1), text("Old"), text("old"), vec![text("l1")]);
    let refused = reg.update_course(&who(2), made.id, text("New"), text("new"), vec![]);
    assert_eq!(refused, Err(RegistryError::Unauthorized));
    assert_eq!(reg.get_course(made.id), Some(made));

    let changed = reg.update_course(&who(1), 1, text("New"), text("new"), vec![text("a"), text("b")]);
    let want = Course {
        id: 1,
        title: text("New"),
        description: text("new"),
        instructor: who(1),
        lessons: vec![text("a"), text("b")],
    };
    assert_eq!(changed.as_ref(), Ok(&want));
    assert_eq!(reg.get_course(1), Some(want));
}

#[test]
fn administrators_may_change_what_others_own() {
    let mut reg = Registry::with_users(vec![
        person(9, "root", Role::Admin),
        person(5, "teach", Role::Instructor),
    ]);
    reg.create_course(&who(1), text("c"), text(""), vec![]);
    reg.upload_video(&who(1), text("v"), text("u"), None, text("")).unwrap();
    reg.create_hackathon(&who(1), text("h"), text(""), text("s"), text("e"));

    assert_eq!(
        reg.update_course(&who(5), 1, text("x"), text(""), vec![]),
        Err(RegistryError::Unauthorized)
    );
    let course = reg.update_course(&who(9), 1, text("by admin"), text(""), vec![]).unwrap();
    assert_eq!(course.title, "by admin");
    assert_eq!(course.instructor, who(1));

    let video = reg.update_video(&who(9), 1, text("v2"), text("u2"), None, text("d")).unwrap();
    assert_eq!(video.uploader, who(1));
    assert_eq!(video.url, "u2");

    let hackathon =
        reg.update_hackathon(&who(9), 1, text("h2"), text(""), text("s"), text("e")).unwrap();
    assert_eq!(hackathon.creator, who(1));
    assert_eq!(hackathon.title, "h2");

    assert_eq!(reg.delete_video(&who(5), 1), Err(RegistryError::Unauthorized));
    assert_eq!(reg.delete_course(&who(9), 1), Ok(()));
    assert_eq!(reg.delete_video(&who(9), 1), Ok(()));
    assert_eq!(reg.delete_hackathon(&who(9), 1), Ok(()));
    assert!(reg.list_courses().is_empty());
    assert!(reg.list_videos().is_empty());
    assert!(reg.list_hackathons().is_empty());
}

#[test]
fn unknown_identifiers_are_not_found() {
    let mut reg = Registry::new();
    let a = who(1);
    assert_eq!(
        reg.update_course(&a, 1, text("t"), text("d"), vec![]),
        Err(RegistryError::NotFound)
    );
    assert_eq!(reg.delete_course(&a, 1), Err(RegistryError::NotFound));
    assert_eq!(
        reg.update_video(&a, 1, text("t"), text("u"), None, text("d")),
        Err(RegistryError::NotFound)
    );
    assert_eq!(reg.delete_video(&a, 1), Err(RegistryError::NotFound));
    assert_eq!(
        reg.update_hackathon(&a, 1, text("t"), text("d"), text("s"), text("e")),
        Err(RegistryError::NotFound)
    );
    assert_eq!(reg.delete_hackathon(&a, 1), Err(RegistryError::NotFound));
    assert_eq!(reg.register_hackathon(&a, 1), Err(RegistryError::NotFound));
    assert_eq!(reg.submit_hackathon(&a, 1, text("sub")), Err(RegistryError::NotFound));

    reg.create_course(&a, text("t"), text("d"), vec![]);
    assert_eq!(reg.delete_course(&a, 1), Ok(()));
    assert_eq!(reg.delete_course(&a, 1), Err(RegistryError::NotFound));
    assert_eq!(reg.delete_course(&who(2), 1), Err(RegistryError::NotFound));
}

#[test]
fn upload_video_checks_the_course_reference() {
    let mut reg = Registry::new();
    let a = who(1);
    assert_eq!(
        reg.upload_video(&a, text("v"), text("u"), Some(1), text("d")),
        Err(RegistryError::InvalidReference)
    );
    assert!(reg.list_videos().is_empty());

    reg.create_course(&who(2), text("c"), text(""), vec![]);
    let made = reg.upload_video(&a, text("v"), text("http://v"), Some(1), text("d")).unwrap();
    let want = Video {
        id: 1,
        title: text("v"),
        url: text("http://v"),
        uploader: who(1),
        course_id: Some(1),
        description: text("d"),
    };
    assert_eq!(made, want);
    assert_eq!(reg.get_video(1), Some(want));

    let free = reg.upload_video(&a, text("w"), text("http://w"), None, text("")).unwrap();
    assert_eq!(free.id, 2);
    assert_eq!(free.course_id, None);
}

#[test]
fn update_video_checks_owner_then_reference() {
    let mut reg = Registry::new();
    reg.create_course(&who(1), text("c"), text(""), vec![]);
    let made = reg.upload_video(&who(1), text("v"), text("u"), None, text("d")).unwrap();

    assert_eq!(
        reg.update_video(&who(2), 1, text("x"), text("y"), Some(77), text("z")),
        Err(RegistryError::Unauthorized)
    );
    assert_eq!(
        reg.update_video(&who(1), 1, text("x"), text("y"), Some(77), text("z")),
        Err(RegistryError::InvalidReference)
    );
    assert_eq!(reg.get_video(1), Some(made));

    let changed = reg.update_video(&who(1), 1, text("x"), text("y"), Some(1), text("z"));
    let want = Video {
        id: 1,
        title: text("x"),
        url: text("y"),
        uploader: who(1),
        course_id: Some(1),
        description: text("z"),
    };
    assert_eq!(changed.as_ref(), Ok(&want));
    assert_eq!(reg.get_video(1), Some(want));
}

#[test]
fn deleting_a_course_leaves_its_videos() {
    let mut reg = Registry::new();
    reg.create_course(&who(1), text("c"), text(""), vec![]);
    let video = reg.upload_video(&who(2), text("v"), text("u"), Some(1), text("")).unwrap();
    assert_eq!(reg.delete_course(&who(1), 1), Ok(()));
    assert_eq!(reg.get_course(1), None);
    let found = reg.get_video(video.id).unwrap();
    assert_eq!(found.course_id, Some(1));
    assert_eq!(found, video);
}

#[test]
fn deleted_video_is_gone() {
    let mut reg = Registry::new();
    let a = who(1);
    reg.upload_video(&a, text("one"), text("u1"), None, text("")).unwrap();
    reg.upload_video(&a, text("two"), text("u2"), None, text("")).unwrap();
    reg.upload_video(&a, text("three"), text("u3"), None, text("")).unwrap();
    assert_eq!(sorted(reg.list_videos().iter().map(|v| v.id).collect()), vec![1, 2, 3]);

    assert_eq!(reg.delete_video(&who(2), 2), Err(RegistryError::Unauthorized));
    assert!(reg.get_video(2).is_some());

    assert_eq!(reg.delete_video(&a, 2), Ok(()));
    assert_eq!(reg.get_video(2), None);
    assert_eq!(sorted(reg.list_videos().iter().map(|v| v.id).collect()), vec![1, 3]);
    assert_eq!(reg.get_video(1).unwrap().title, "one");
    assert_eq!(reg.get_video(3).unwrap().title, "three");
}

#[test]
fn create_hackathon_starts_without_participants() {
    let mut reg = Registry::new();
    let made = reg.create_hackathon(
        &who(4),
        text("Hack"),
        text("48h"),
        text("2024-01-01"),
        text("2024-01-03"),
    );
    let want = Hackathon {
        id: 1,
        title: text("Hack"),
        description: text("48h"),
        start_date: text("2024-01-01"),
        end_date: text("2024-01-03"),
        creator: who(4),
        participants: vec![],
        submissions: vec![],
    };
    assert_eq!(made, want);
    assert_eq!(reg.get_hackathon(1), Some(want));
}

#[test]
fn register_hackathon_twice_is_idempotent() {
    let mut reg = Registry::new();
    reg.create_hackathon(&who(1), text("h"), text(""), text("s"), text("e"));
    assert_eq!(reg.register_hackathon(&who(2), 1), Ok(()));
    assert_eq!(reg.register_hackathon(&who(2), 1), Ok(()));
    assert_eq!(reg.get_hackathon(1).unwrap().participants, vec![who(2)]);
    assert_eq!(reg.register_hackathon(&who(3), 1), Ok(()));
    assert_eq!(reg.register_hackathon(&who(2), 1), Ok(()));
    assert_eq!(reg.register_hackathon(&who(1), 1), Ok(()));
    assert_eq!(reg.get_hackathon(1).unwrap().participants, vec![who(2), who(3), who(1)]);
}

#[test]
fn submit_hackathon_needs_registration_and_keeps_call_order() {
    let mut reg = Registry::new();
    reg.create_hackathon(&who(1), text("h"), text(""), text("s"), text("e"));
    assert_eq!(reg.submit_hackathon(&who(2), 1, text("sub")), Err(RegistryError::NotRegistered));
    assert_eq!(reg.submit_hackathon(&who(1), 1, text("sub")), Err(RegistryError::NotRegistered));
    assert!(reg.get_hackathon(1).unwrap().submissions.is_empty());

    assert_eq!(reg.register_hackathon(&who(2), 1), Ok(()));
    assert_eq!(reg.submit_hackathon(&who(2), 1, text("sub")), Ok(()));
    assert_eq!(reg.submit_hackathon(&who(2), 1, text("sub")), Ok(()));
    assert_eq!(reg.get_hackathon(1).unwrap().submissions, vec![text("sub"), text("sub")]);

    assert_eq!(reg.register_hackathon(&who(3), 1), Ok(()));
    assert_eq!(reg.submit_hackathon(&who(3), 1, text("other")), Ok(()));
    assert_eq!(reg.submit_hackathon(&who(2), 1, text("last")), Ok(()));
    assert_eq!(
        reg.get_hackathon(1).unwrap().submissions,
        vec![text("sub"), text("sub"), text("other"), text("last")]
    );
}

#[test]
fn update_hackathon_keeps_participants_and_submissions() {
    let mut reg = Registry::new();
    reg.create_hackathon(&who(1), text("h"), text("d"), text("s"), text("e"));
    reg.register_hackathon(&who(2), 1).unwrap();
    reg.submit_hackathon(&who(2), 1, text("work")).unwrap();

    assert_eq!(
        reg.update_hackathon(&who(2), 1, text("x"), text("x"), text("x"), text("x")),
        Err(RegistryError::Unauthorized)
    );
    let changed = reg.update_hackathon(&who(1), 1, text("H"), text("D"), text("S"), text("E"));
    let want = Hackathon {
        id: 1,
        title: text("H"),
        description: text("D"),
        start_date: text("S"),
        end_date: text("E"),
        creator: who(1),
        participants: vec![who(2)],
        submissions: vec![text("work")],
    };
    assert_eq!(changed.as_ref(), Ok(&want));
    assert_eq!(reg.get_hackathon(1), Some(want));
}

#[test]
fn delete_hackathon_requires_the_creator() {
    let mut reg = Registry::new();
    reg.create_hackathon(&who(1), text("h"), text("d"), text("s"), text("e"));
    reg.register_hackathon(&who(2), 1).unwrap();
    assert_eq!(reg.delete_hackathon(&who(2), 1), Err(RegistryError::Unauthorized));
    assert!(reg.get_hackathon(1).is_some());
    assert_eq!(reg.delete_hackathon(&who(1), 1), Ok(()));
    assert_eq!(reg.get_hackathon(1), None);
    assert!(reg.list_hackathons().is_empty());
    assert_eq!(reg.create_hackathon(&who(1), text("h"), text("d"), text("s"), text("e")).id, 2);
}

#[test]
fn rust_101_scenario() {
    let mut reg = Registry::new();
    let i1 = who(1);
    let i2 = who(2);
    let course = reg.create_course(&i1, text("Rust 101"), text(""), vec![]);
    assert_eq!(course.id, 1);
    assert_eq!(course.instructor, i1);
    assert_eq!(course.title, "Rust 101");
    assert_eq!(reg.delete_course(&i2, 1), Err(RegistryError::Unauthorized));
    assert_eq!(reg.get_course(1), Some(course));
    assert_eq!(reg.delete_course(&i1, 1), Ok(()));
    assert_eq!(reg.get_course(1), None);
}

#[test]
fn listings_hold_every_entity_once() {
    let mut reg = Registry::new();
    for tag in 1..=5u8 {
        reg.register_user(&who(tag), format!("u{tag}"), format!("u{tag}@x.com"));
        reg.create_course(&who(tag), format!("c{tag}"), text(""), vec![]);
        reg.create_hackathon(&who(tag), format!("h{tag}"), text(""), text("s"), text("e"));
    }
    let mut names: Vec<String> = reg.get_all_users().into_iter().map(|u| u.name).collect();
    names.sort();
    assert_eq!(names, vec!["u1", "u2", "u3", "u4", "u5"]);
    let courses = reg.list_courses();
    assert_eq!(sorted(courses.iter().map(|c| c.id).collect()), vec![1, 2, 3, 4, 5]);
    for course in &courses {
        assert_eq!(reg.get_course(course.id).as_ref(), Some(course));
    }
    let hackathons = reg.list_hackathons();
    assert_eq!(sorted(hackathons.iter().map(|h| h.id).collect()), vec![1, 2, 3, 4, 5]);
}
