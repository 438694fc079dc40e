use user_service::types::AppError;
use user_service::user::{MemoryRepository, Repository, Service, User};

fn user(name: &str) -> User {
    User { name: name.to_string() }
}

fn names(users: Vec<User>) -> Vec<String> {
    users.into_iter().map(|user| user.name).collect()
}

#[test]
fn a_new_store_is_empty() {
    let store = MemoryRepository::new();
    assert!(store.list().unwrap().is_empty());
    assert!(store.find_by_id(&1).unwrap().is_none());
    assert!(store.find_by_id(&0).unwrap().is_none());
}

#[test]
fn create_hands_the_user_back() {
    let mut store = MemoryRepository::new();
    let kept = store.create(user("alice")).unwrap();
    assert_eq!(kept.name, "alice");
}

#[test]
fn users_are_numbered_from_one() {
    let mut store = MemoryRepository::new();
    store.create(user("alice")).unwrap();
    store.create(user("bob")).unwrap();
    store.create(user("carol")).unwrap();
    assert!(store.find_by_id(&0).unwrap().is_none());
    assert_eq!(store.find_by_id(&1).unwrap().unwrap().name, "alice");
    assert_eq!(store.find_by_id(&2).unwrap().unwrap().name, "bob");
    assert_eq!(store.find_by_id(&3).unwrap().unwrap().name, "carol");
    assert!(store.find_by_id(&4).unwrap().is_none());
    assert!(store.find_by_id(&u64::MAX).unwrap().is_none());
}

#[test]
fn list_is_in_the_order_of_arrival() {
    let mut store = MemoryRepository::new();
    for name in ["delta", "alpha", "charlie", "bravo"] {
        store.create(user(name)).unwrap();
    }
    assert_eq!(names(store.list().unwrap()), ["delta", "alpha", "charlie", "bravo"]);
}

#[test]
fn two_users_may_share_a_name() {
    let mut store = MemoryRepository::new();
    store.create(user("alice")).unwrap();
    store.create(user("alice")).unwrap();
    assert_eq!(names(store.list().unwrap()), ["alice", "alice"]);
}

#[test]
fn an_empty_name_is_kept() {
    let mut store = MemoryRepository::new();
    store.create(user("")).unwrap();
    assert_eq!(store.find_by_id(&1).unwrap().unwrap().name, "");
}

#[test]
fn update_replaces_the_name() {
    let mut store = MemoryRepository::new();
    store.create(user("alice")).unwrap();
    store.create(user("bob")).unwrap();
    let kept = store.update(1, user("alicia")).unwrap().unwrap();
    assert_eq!(kept.name, "alicia");
    assert_eq!(store.find_by_id(&1).unwrap().unwrap().name, "alicia");
    assert_eq!(store.find_by_id(&2).unwrap().unwrap().name, "bob");
    assert_eq!(names(store.list().unwrap()), ["alicia", "bob"]);
}

#[test]
fn update_of_a_missing_number_changes_nothing() {
    let mut store = MemoryRepository::new();
    store.create(user("alice")).unwrap();
    assert!(store.update(2, user("bob")).unwrap().is_none());
    assert!(store.update(0, user("bob")).unwrap().is_none());
    assert_eq!(names(store.list().unwrap()), ["alice"]);
}

#[test]
fn delete_removes_the_user() {
    let mut store = MemoryRepository::new();
    store.create(user("alice")).unwrap();
    store.create(user("bob")).unwrap();
    store.create(user("carol")).unwrap();
    assert!(store.delete(&2).unwrap());
    assert!(store.find_by_id(&2).unwrap().is_none());
    assert_eq!(names(store.list().unwrap()), ["alice", "carol"]);
    assert_eq!(store.find_by_id(&3).unwrap().unwrap().name, "carol");
}

#[test]
fn delete_of_a_missing_number_says_so() {
    let mut store = MemoryRepository::new();
    assert!(!store.delete(&1).unwrap());
    store.create(user("alice")).unwrap();
    assert!(!store.delete(&2).unwrap());
    assert!(store.delete(&1).unwrap());
    assert!(!store.delete(&1).unwrap());
}

#[test]
fn a_number_is_not_used_twice() {
    let mut store = MemoryRepository::new();
    store.create(user("alice")).unwrap();
    store.create(user("bob")).unwrap();
    assert!(store.delete(&2).unwrap());
    store.create(user("carol")).unwrap();
    assert!(store.find_by_id(&2).unwrap().is_none());
    assert_eq!(store.find_by_id(&3).unwrap().unwrap().name, "carol");
}

#[test]
fn finding_works_among_many() {
    let mut store = MemoryRepository::new();
    for i in 1..=200u64 {
        store.create(user(&format!("user-{}", i))).unwrap();
    }
    for i in (2..=200u64).step_by(2) {
        assert!(store.delete(&i).unwrap());
    }
    for i in 1..=200u64 {
        let found = store.find_by_id(&i).unwrap();
        if i % 2 == 1 {
            assert_eq!(found.unwrap().name, format!("user-{}", i));
        } else {
            assert!(found.is_none());
        }
    }
    assert_eq!(store.list().unwrap().len(), 100);
}

#[test]
fn the_service_passes_everything_on() {
    let mut service = Service::new(MemoryRepository::new());
    assert_eq!(service.create(user("alice")).unwrap().name, "alice");
    assert_eq!(service.find_by_id(&1).unwrap().unwrap().name, "alice");
    assert_eq!(service.update(1, user("bob")).unwrap().unwrap().name, "bob");
    assert_eq!(names(service.list().unwrap()), ["bob"]);
    assert!(service.delete(&1).unwrap());
    assert!(!service.delete(&1).unwrap());
    assert!(service.find_by_id(&1).unwrap().is_none());
    assert!(service.update(1, user("carol")).unwrap().is_none());
    assert!(service.list().unwrap().is_empty());
}

#[test]
fn a_copy_of_a_user_has_its_name() {
    let first = user("alice");
    let copy = first.clone();
    assert_eq!(copy.name, "alice");
    assert_eq!(first.name, "alice");
}

#[test]
fn errors_of_a_store_are_general() {
    let error = AppError::string("connection reset");
    assert!(matches!(error, AppError::General(_)));
}

#[test]
fn a_store_may_start_at_another_number() {
    let mut store = MemoryRepository::starting_at(40);
    store.create(user("alice")).unwrap();
    store.create(user("bob")).unwrap();
    assert!(store.find_by_id(&1).unwrap().is_none());
    assert_eq!(store.find_by_id(&40).unwrap().unwrap().name, "alice");
    assert_eq!(store.find_by_id(&41).unwrap().unwrap().name, "bob");
}

#[test]
fn the_last_number_but_one_is_still_given_out() {
    let mut store = MemoryRepository::starting_at(u64::MAX - 1);
    assert_eq!(store.create(user("alice")).unwrap().name, "alice");
    assert_eq!(store.find_by_id(&(u64::MAX - 1)).unwrap().unwrap().name, "alice");
}

#[test]
fn a_store_without_numbers_keeps_no_further_user() {
    let mut store = MemoryRepository::starting_at(u64::MAX - 1);
    store.create(user("alice")).unwrap();
    match store.create(user("bob")) {
        Err(AppError::General(text)) => assert_eq!(text, "the numbers for users have run out"),
        other => panic!("unexpected result: {:?}", other),
    }
    assert_eq!(names(store.list().unwrap()), ["alice"]);
    assert!(store.find_by_id(&u64::MAX).unwrap().is_none());
    assert!(store.delete(&(u64::MAX - 1)).unwrap());
    assert!(store.create(user("carol")).is_err());
    assert!(store.list().unwrap().is_empty());
}

#[test]
fn a_copy_of_a_store_goes_its_own_way() {
    let mut store = MemoryRepository::new();
    store.create(user("alice")).unwrap();
    let mut copy = store.clone();
    copy.create(user("bob")).unwrap();
    assert!(store.delete(&1).unwrap());
    assert!(store.list().unwrap().is_empty());
    assert_eq!(names(copy.list().unwrap()), ["alice", "bob"]);
    store.create(user("carol")).unwrap();
    assert_eq!(store.find_by_id(&2).unwrap().unwrap().name, "carol");
}
