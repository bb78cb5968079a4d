use user_service::errors::ApiError;
use user_service::memory::MemoryRepository;
use user_service::models::{UpdateProfileRequest, UserProfile};
use user_service::service::{apply_profile_update, Service};

fn profile_fields_equal(a: &UserProfile, b: &UserProfile) -> bool {
    a.id == b.id
        && a.user_id == b.user_id
        && a.email == b.email
        && a.name == b.name
        && a.bio == b.bio
        && a.phone_number == b.phone_number
        && a.location == b.location
        && a.profile_picture_url == b.profile_picture_url
        && a.theme == b.theme
        && a.template == b.template
        && a.custom_url == b.custom_url
        && a.job_title == b.job_title
        && a.facebook_url == b.facebook_url
        && a.twitter_url == b.twitter_url
        && a.instagram_url == b.instagram_url
        && a.linkedin_url == b.linkedin_url
        && a.exchange_contacts == b.exchange_contacts
        && a.save_contact == b.save_contact
        && a.call_me == b.call_me
        && a.email_me == b.email_me
        && a.social_media == b.social_media
}

#[test]
fn new_profile_has_documented_defaults() {
    let profile = UserProfile::new(5);
    assert_eq!(profile.id.len(), 36);
    assert_eq!(profile.user_id, 5);
    assert_eq!(profile.email, None);
    assert_eq!(profile.name, None);
    assert_eq!(profile.custom_url, None);
    assert_eq!(profile.template, "default");
    assert!(profile.exchange_contacts);
    assert!(profile.save_contact);
    assert!(profile.call_me);
    assert!(profile.email_me);
    assert!(!profile.social_media);
}

#[test]
fn two_new_profiles_get_distinct_handles() {
    let a = UserProfile::new(1);
    let b = UserProfile::new(1);
    assert_ne!(a.id, b.id);
}

#[test]
fn create_then_find_by_id_round_trip() {
    let mut service = Service::new(MemoryRepository::new());
    let mut profile = UserProfile::new(9);
    profile.name = Some(String::from("Ada"));
    profile.custom_url = Some(String::from("ada"));
    let created = service.create_profile(&profile).expect("fresh profile");
    assert!(profile_fields_equal(&created, &profile));
    let found = service.find_profile_by_id(&profile.id).expect("just created");
    assert!(profile_fields_equal(&found, &profile));
}

#[test]
fn find_profile_missing_id_is_not_found() {
    let service = Service::new(MemoryRepository::new());
    match service.find_profile_by_id("nope") {
        Err(ApiError::NotFound(m)) => {
            assert_eq!(m, "User profile with ID nope not found");
        }
        _ => panic!("expected not found"),
    }
}

#[test]
fn find_profile_by_user_id_roundtrip() {
    let mut service = Service::new(MemoryRepository::new());
    let profile = UserProfile::new(31);
    service.create_profile(&profile).unwrap();
    let found = service.find_profile_by_user_id(31).expect("owner has a profile");
    assert_eq!(found.id, profile.id);
    match service.find_profile_by_user_id(32) {
        Err(ApiError::NotFound(m)) => {
            assert_eq!(m, "User profile for user ID 32 not found");
        }
        _ => panic!("expected not found"),
    }
}

#[test]
fn duplicate_custom_url_conflicts() {
    let mut service = Service::new(MemoryRepository::new());
    let mut first = UserProfile::new(1);
    first.custom_url = Some(String::from("taken"));
    service.create_profile(&first).expect("first custom url");
    let mut second = UserProfile::new(2);
    second.custom_url = Some(String::from("taken"));
    match service.create_profile(&second) {
        Err(ApiError::Conflict(m)) => {
            assert_eq!(m, "User profile with this custom URL already exists");
        }
        _ => panic!("expected a conflict"),
    }
}

#[test]
fn absent_custom_url_imposes_no_constraint() {
    let mut service = Service::new(MemoryRepository::new());
    let first = UserProfile::new(1);
    let second = UserProfile::new(2);
    assert_eq!(first.custom_url, None);
    assert_eq!(second.custom_url, None);
    assert!(service.create_profile(&first).is_ok());
    assert!(service.create_profile(&second).is_ok());
}

#[test]
fn duplicate_owner_conflicts() {
    let mut service = Service::new(MemoryRepository::new());
    service.create_profile(&UserProfile::new(8)).unwrap();
    match service.create_profile(&UserProfile::new(8)) {
        Err(ApiError::Conflict(_)) => {}
        _ => panic!("expected a conflict for the second profile of one user"),
    }
}

#[test]
fn update_profile_replaces_record() {
    let mut service = Service::new(MemoryRepository::new());
    let mut profile = UserProfile::new(3);
    profile.bio = Some(String::from("old bio"));
    service.create_profile(&profile).unwrap();
    let mut replacement = profile.clone();
    replacement.bio = Some(String::from("new bio"));
    replacement.social_media = true;
    let updated = service.update_profile(&replacement).expect("row exists");
    assert_eq!(updated.bio, Some(String::from("new bio")));
    assert!(updated.social_media);
    let found = service.find_profile_by_id(&profile.id).unwrap();
    assert!(profile_fields_equal(&found, &replacement));
}

#[test]
fn update_profile_missing_handle_is_not_found() {
    let mut service = Service::new(MemoryRepository::new());
    let profile = UserProfile::new(4);
    match service.update_profile(&profile) {
        Err(ApiError::NotFound(_)) => {}
        _ => panic!("expected not found"),
    }
}

#[test]
fn update_profile_custom_url_of_other_row_conflicts() {
    let mut service = Service::new(MemoryRepository::new());
    let mut first = UserProfile::new(1);
    first.custom_url = Some(String::from("held"));
    service.create_profile(&first).unwrap();
    let second = UserProfile::new(2);
    service.create_profile(&second).unwrap();
    let mut replacement = second.clone();
    replacement.custom_url = Some(String::from("held"));
    match service.update_profile(&replacement) {
        Err(ApiError::Conflict(_)) => {}
        _ => panic!("expected a conflict"),
    }
}

#[test]
fn empty_patch_leaves_profile_identical() {
    let mut service = Service::new(MemoryRepository::new());
    let mut profile = UserProfile::new(6);
    profile.name = Some(String::from("Alice"));
    profile.bio = Some(String::from("hi"));
    profile.social_media = true;
    service.create_profile(&profile).unwrap();
    let result = service
        .update_profile_for_user(6, &UpdateProfileRequest::empty())
        .expect("profile exists");
    assert!(profile_fields_equal(&result, &profile));
    let found = service.find_profile_by_user_id(6).unwrap();
    assert!(profile_fields_equal(&found, &profile));
}

#[test]
fn partial_patch_merges_present_fields_only() {
    let mut service = Service::new(MemoryRepository::new());
    let mut profile = UserProfile::new(7);
    profile.name = Some(String::from("Alice"));
    profile.bio = Some(String::from("hi"));
    service.create_profile(&profile).unwrap();
    let mut patch = UpdateProfileRequest::empty();
    patch.bio = Some(String::from("hello"));
    let merged = service.update_profile_for_user(7, &patch).expect("profile exists");
    assert_eq!(merged.name, Some(String::from("Alice")));
    assert_eq!(merged.bio, Some(String::from("hello")));
    let mut expected = profile.clone();
    expected.bio = Some(String::from("hello"));
    assert!(profile_fields_equal(&merged, &expected));
    let found = service.find_profile_by_user_id(7).unwrap();
    assert!(profile_fields_equal(&found, &expected));
}

#[test]
fn patch_for_user_without_profile_is_not_found() {
    let mut service = Service::new(MemoryRepository::new());
    match service.update_profile_for_user(99, &UpdateProfileRequest::empty()) {
        Err(ApiError::NotFound(m)) => {
            assert_eq!(m, "User profile for user ID 99 not found");
        }
        _ => panic!("expected not found"),
    }
}

#[test]
fn merge_distinguishes_absent_from_empty() {
    let mut base = UserProfile::new(1);
    base.location = Some(String::from("Berlin"));
    let mut patch = UpdateProfileRequest::empty();
    patch.location = Some(String::new());
    let merged = apply_profile_update(&base, &patch);
    assert_eq!(merged.location, Some(String::new()));
    let untouched = apply_profile_update(&base, &UpdateProfileRequest::empty());
    assert_eq!(untouched.location, Some(String::from("Berlin")));
}

#[test]
fn merge_overwrites_template_and_flags() {
    let base = UserProfile::new(2);
    let mut patch = UpdateProfileRequest::empty();
    patch.template = Some(String::from("dark"));
    patch.email_me = Some(false);
    patch.social_media = Some(true);
    let merged = apply_profile_update(&base, &patch);
    assert_eq!(merged.template, "dark");
    assert!(!merged.email_me);
    assert!(merged.social_media);
    assert!(merged.exchange_contacts);
    assert_eq!(merged.user_id, 2);
    assert_eq!(merged.id, base.id);
}
