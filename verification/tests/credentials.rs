use account_service::user::models::{
    creation_time, hash_password, stored_hash, usable_reading, verify_password, CredentialError,
    NewUser, RegistrationError, Timestamp, User, ID_LEN,
};

fn stored(password_hash: &str) -> User {
    User {
        id: "8d0c4a0e-5d0b-4a44-9b64-0d6c7b1f3a10".to_string(),
        username: "alice".to_string(),
        password: password_hash.to_string(),
        first_name: "A".to_string(),
        last_name: "Liss".to_string(),
        email: "a@x.com".to_string(),
        timestamp: Timestamp { secs: 1_700_000_000, nanos: 0 },
    }
}

#[test]
fn hash_then_verify_accepts_the_same_password() {
    let hash = hash_password("pw123").unwrap();
    assert_eq!(verify_password("pw123", &hash), Ok(true));
}

#[test]
fn verify_rejects_another_password() {
    let hash = hash_password("pw123").unwrap();
    assert_eq!(verify_password("wrong", &hash), Ok(false));
}

#[test]
fn verify_reports_an_unreadable_hash() {
    assert_eq!(verify_password("pw123", "not-a-hash"), Err(CredentialError::Verify));
    assert_eq!(verify_password("pw123", ""), Err(CredentialError::Verify));
}

#[test]
fn hash_is_a_salted_bcrypt_hash_and_not_the_plaintext() {
    let first = hash_password("pw123").unwrap();
    let second = hash_password("pw123").unwrap();
    assert_ne!(first, "pw123");
    assert_eq!(first.len(), 60);
    assert!(first.starts_with("$2b$12$"));
    assert_ne!(first, second);
}

#[test]
fn verify_accepts_a_hash_made_elsewhere() {
    let hash = "$2b$04$EGdrhbKUv8Oc9vGiXX0HQOxSg445d458Muh7DAHskb6QbtCvdxcie";
    assert_eq!(verify_password("correctbatteryhorsestapler", hash), Ok(true));
    assert_eq!(verify_password("wrong", hash), Ok(false));
}

#[test]
fn empty_password_hashes_and_verifies() {
    let hash = hash_password("").unwrap();
    assert_eq!(verify_password("", &hash), Ok(true));
    assert_eq!(verify_password("x", &hash), Ok(false));
}

#[test]
fn new_user_keeps_the_fields_and_stores_only_a_hash() {
    let user = NewUser::new(
        "alice".to_string(),
        "pw123".to_string(),
        "A".to_string(),
        "Liss".to_string(),
        "a@x.com".to_string(),
    )
    .unwrap();
    assert_eq!(user.id.chars().count(), ID_LEN);
    assert_eq!(user.username, "alice");
    assert_eq!(user.first_name, "A");
    assert_eq!(user.last_name, "Liss");
    assert_eq!(user.email, "a@x.com");
    assert_ne!(user.password, "pw123");
    assert_eq!(verify_password("pw123", &user.password), Ok(true));
    assert!(user.timestamp.secs > 1_600_000_000);
    assert!(user.timestamp.nanos < 2_000_000_000);
}

#[test]
fn new_users_get_distinct_identifiers() {
    let hash = bcrypt::hash("pw", 4).unwrap();
    let a = NewUser::assemble(
        "id-a".to_string(),
        "alice".to_string(),
        hash.clone(),
        "A".to_string(),
        "Liss".to_string(),
        "a@x.com".to_string(),
        Timestamp { secs: 1, nanos: 2 },
    );
    assert_eq!(a.id, "id-a");
    assert_eq!(a.password, hash);
    assert_eq!(a.timestamp, Timestamp { secs: 1, nanos: 2 });
    let x = NewUser::new("u".into(), "p".into(), "f".into(), "l".into(), "e".into()).unwrap();
    let y = NewUser::new("u".into(), "p".into(), "f".into(), "l".into(), "e".into()).unwrap();
    assert_ne!(x.id, y.id);
    assert_eq!(x.id.matches('-').count(), 4);
}

#[test]
fn user_verify_password_answers_for_the_stored_hash() {
    let user = stored(&bcrypt::hash("pw123", 4).unwrap());
    assert_eq!(user.verify_password("pw123".to_string()), Ok(true));
    assert_eq!(user.verify_password("wrong".to_string()), Ok(false));
    assert_eq!(stored("plain").verify_password("plain".to_string()), Err(CredentialError::Verify));
}

#[test]
fn into_user_and_clone_keep_every_field() {
    let new_user = NewUser::assemble(
        "id-a".to_string(),
        "alice".to_string(),
        "hash".to_string(),
        "A".to_string(),
        "Liss".to_string(),
        "a@x.com".to_string(),
        Timestamp { secs: 7, nanos: 9 },
    );
    let copy = new_user.clone();
    assert_eq!(copy, new_user);
    let user = new_user.into_user();
    assert_eq!(user.id, "id-a");
    assert_eq!(user.username, "alice");
    assert_eq!(user.password, "hash");
    assert_eq!(user.first_name, "A");
    assert_eq!(user.last_name, "Liss");
    assert_eq!(user.email, "a@x.com");
    assert_eq!(user.timestamp, Timestamp { secs: 7, nanos: 9 });
    assert_eq!(user.clone(), user);
}

#[test]
fn timestamps_order_by_seconds_then_nanoseconds() {
    let early = Timestamp { secs: 10, nanos: 500 };
    let late = Timestamp { secs: 11, nanos: 0 };
    let later_in_second = Timestamp { secs: 10, nanos: 501 };
    assert!(late.not_before(early));
    assert!(!early.not_before(late));
    assert!(later_in_second.not_before(early));
    assert!(!early.not_before(later_in_second));
    assert!(early.not_before(early));
    assert!(Timestamp { secs: -1, nanos: 0 }.not_before(Timestamp { secs: -2, nanos: 999 }));
}

#[test]
fn what_the_hasher_produced_is_stored_as_it_came() {
    assert_eq!(stored_hash("pw123", Some("$2b$12$abc".to_string())), Ok("$2b$12$abc".to_string()));
    assert_eq!(stored_hash("", Some("x".to_string())), Ok("x".to_string()));
    assert_eq!(stored_hash("pw123", Some(String::new())), Ok(String::new()));
}

#[test]
fn a_hasher_that_produces_nothing_or_the_plaintext_has_broken_down() {
    assert_eq!(stored_hash("pw123", None), Err(CredentialError::Hash));
    assert_eq!(stored_hash("pw123", Some("pw123".to_string())), Err(CredentialError::Hash));
    assert_eq!(stored_hash("", Some(String::new())), Err(CredentialError::Hash));
}

#[test]
fn a_registration_settles_on_the_hashers_failure_first_then_the_clocks() {
    let at = Timestamp { secs: 7, nanos: 9 };
    let parts = || ("id".to_string(), "u".to_string(), "f".to_string(), "l".to_string(), "e".to_string());
    let (id, u, f, l, e) = parts();
    assert_eq!(
        NewUser::settle(id, u, Err(CredentialError::Hash), f, l, e, Some(at)),
        Err(RegistrationError::Credential(CredentialError::Hash))
    );
    let (id, u, f, l, e) = parts();
    assert_eq!(
        NewUser::settle(id, u, Err(CredentialError::Hash), f, l, e, None),
        Err(RegistrationError::Credential(CredentialError::Hash))
    );
    let (id, u, f, l, e) = parts();
    assert_eq!(
        NewUser::settle(id, u, Ok("hash".to_string()), f, l, e, None),
        Err(RegistrationError::Clock)
    );
    let (id, u, f, l, e) = parts();
    assert_eq!(
        NewUser::settle(id, u, Ok("hash".to_string()), f, l, e, Some(at)),
        Ok(NewUser {
            id: "id".to_string(),
            username: "u".to_string(),
            password: "hash".to_string(),
            first_name: "f".to_string(),
            last_name: "l".to_string(),
            email: "e".to_string(),
            timestamp: at,
        })
    );
}

#[test]
fn a_reading_is_usable_if_its_seconds_fit_a_signed_count() {
    assert_eq!(usable_reading(None), None);
    assert_eq!(usable_reading(Some((0, 0))), Some((0, 0)));
    assert_eq!(usable_reading(Some((1_700_000_000, 999_999_999))), Some((1_700_000_000, 999_999_999)));
    assert_eq!(usable_reading(Some((i64::MAX as u64, 7))), Some((i64::MAX, 7)));
    assert_eq!(usable_reading(Some((i64::MAX as u64 + 1, 7))), None);
    assert_eq!(usable_reading(Some((u64::MAX, 0))), None);
}

#[test]
fn there_is_no_time_of_creation_without_a_usable_reading() {
    assert_eq!(creation_time(None), None);
    assert_eq!(creation_time(Some((u64::MAX, 0))), None);
    assert_eq!(creation_time(Some((i64::MAX as u64 + 1, 0))), None);
    assert_eq!(creation_time(Some((i64::MAX as u64, 0))), None);
}

#[test]
fn the_time_of_creation_is_the_reading_in_the_local_zone() {
    let created = creation_time(Some((1_700_000_000, 123_456_789))).unwrap();
    assert_eq!(created.nanos, 123_456_789);
    assert!((created.secs - 1_700_000_000).abs() <= 16 * 3600);
    assert_eq!((created.secs - 1_700_000_000) % 60, 0);
    let epoch = creation_time(Some((0, 0))).unwrap();
    assert!(epoch.secs.abs() <= 16 * 3600);
}
