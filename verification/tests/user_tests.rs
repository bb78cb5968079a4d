use user_service::memory::MemoryRepository;
use user_service::models::User;
use user_service::ports::Repository;
use user_service::service::Service;
use user_service::errors::ApiError;

#[test]
fn create_assigns_positive_id() {
    let mut service = Service::new(MemoryRepository::new());
    let user = User::new("g-1", "a@example.com");
    assert_eq!(user.id, 0);
    let created = service.create(&user).expect("create should succeed");
    assert!(created.id > 0);
    assert_eq!(created.google_id, "g-1");
    assert_eq!(created.email, "a@example.com");
}

#[test]
fn create_twice_same_google_id_conflicts() {
    let mut service = Service::new(MemoryRepository::new());
    let first = service.create(&User::new("g-dup", "a@example.com"));
    assert!(first.is_ok());
    let second = service.create(&User::new("g-dup", "b@example.com"));
    match second {
        Err(ApiError::Conflict(m)) => {
            assert_eq!(m, "User with this Google ID or email already exists");
        }
        other => panic!("expected a conflict, got {:?}", other.is_ok()),
    }
}

#[test]
fn create_distinct_google_ids_both_succeed() {
    let mut service = Service::new(MemoryRepository::new());
    let a = service.create(&User::new("g-a", "a@example.com")).unwrap();
    let b = service.create(&User::new("g-b", "b@example.com")).unwrap();
    assert_ne!(a.id, b.id);
}

#[test]
fn find_by_id_missing_is_not_found() {
    let service = Service::new(MemoryRepository::new());
    match service.find_by_id(42) {
        Err(ApiError::NotFound(m)) => assert_eq!(m, "User with ID 42 not found"),
        _ => panic!("expected not found"),
    }
}

#[test]
fn find_by_id_after_create_returns_equal_record() {
    let mut service = Service::new(MemoryRepository::new());
    let created = service.create(&User::new("g-f", "f@example.com")).unwrap();
    let found = service.find_by_id(created.id).expect("just-created id");
    assert_eq!(found.id, created.id);
    assert_eq!(found.google_id, "g-f");
    assert_eq!(found.email, "f@example.com");
}

#[test]
fn find_by_google_id_roundtrip() {
    let mut service = Service::new(MemoryRepository::new());
    service.create(&User::new("g-x", "x@example.com")).unwrap();
    let found = service.find_by_google_id("g-x").expect("created google id");
    assert_eq!(found.email, "x@example.com");
    match service.find_by_google_id("g-missing") {
        Err(ApiError::NotFound(m)) => {
            assert_eq!(m, "User with Google ID g-missing not found");
        }
        _ => panic!("expected not found"),
    }
}

#[test]
fn update_changes_email_only() {
    let mut service = Service::new(MemoryRepository::new());
    let created = service.create(&User::new("g-u", "old@example.com")).unwrap();
    let request = User {
        id: created.id,
        google_id: String::from("ignored"),
        email: String::from("new@example.com"),
    };
    let updated = service.update(&request).expect("row exists");
    assert_eq!(updated.id, created.id);
    assert_eq!(updated.google_id, "g-u");
    assert_eq!(updated.email, "new@example.com");
    let found = service.find_by_id(created.id).unwrap();
    assert_eq!(found.email, "new@example.com");
}

#[test]
fn update_missing_user_is_not_found() {
    let mut service = Service::new(MemoryRepository::new());
    let request = User {
        id: 7,
        google_id: String::from("g"),
        email: String::from("e@example.com"),
    };
    match service.update(&request) {
        Err(ApiError::NotFound(m)) => assert_eq!(m, "User with ID 7 not found"),
        _ => panic!("expected not found"),
    }
}

#[test]
fn negative_id_lookup_message_renders_sign() {
    let repo = MemoryRepository::new();
    match repo.find_by_id(-3) {
        Err(ApiError::NotFound(m)) => assert_eq!(m, "User with ID -3 not found"),
        _ => panic!("expected not found"),
    }
}
