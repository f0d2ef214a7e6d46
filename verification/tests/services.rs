use account_service::commons::auth::Claims;
use account_service::commons::schema::{ErrorResponse, ErrorResponseWithStatus, Payload, Reply};
use account_service::state::{
    DataAccessError, DataAccessResult, FaultKind, StoreFault, StoreReply, StoreRequest,
};
use account_service::user::models::{
    CredentialError, NewUser, RegistrationError, Timestamp, User,
};
use account_service::user::schemas::{
    CreateUserRequest, CreateUserResponse, ListUsersResponse, LoginRequest, UserResponse,
    UserSchema,
};
use account_service::user::services::create_user_service::{
    create_response, create_user_service, insert_new_user, new_account, registration_rejected,
};
use account_service::user::services::failure_reply;
use account_service::user::services::get_my_profile::{get_my_profile_service, profile_query};
use account_service::user::services::list_users_service::{list_query, list_users_service};
use account_service::user::services::login_service::{
    login_account, login_query, login_service, login_service_at,
};

const SECRET_TEXT: &str = "duplicate key value violates constraint users_username_key";

fn fault(kind: FaultKind) -> StoreFault {
    StoreFault { kind, detail: SECRET_TEXT.to_string() }
}

fn row(id: &str, username: &str, password: &str, secs: i64) -> User {
    User {
        id: id.to_string(),
        username: username.to_string(),
        password: bcrypt::hash(password, 4).unwrap(),
        first_name: "A".to_string(),
        last_name: "Liss".to_string(),
        email: "a@x.com".to_string(),
        timestamp: Timestamp { secs, nanos: 0 },
    }
}

fn new_alice() -> NewUser {
    NewUser::assemble(
        "id-alice".to_string(),
        "alice".to_string(),
        "$2b$04$hash".to_string(),
        "A".to_string(),
        "Liss".to_string(),
        "a@x.com".to_string(),
        Timestamp { secs: 50, nanos: 5 },
    )
}

fn login(username: &str, password: &str) -> LoginRequest {
    LoginRequest { username: username.to_string(), password: password.to_string() }
}

fn error(status: u16, error: &str, details: &str) -> Reply {
    Reply {
        status,
        body: Payload::Error(ErrorResponse { error: error.to_string(), details: details.to_string() }),
        authorization: None,
    }
}

fn text(status: u16, line: &str) -> Reply {
    Reply { status, body: Payload::Text(line.to_string()), authorization: None }
}

fn shown(reply: &Reply) -> String {
    format!("{:?}", reply)
}

#[test]
fn a_registration_that_was_inserted_is_created_and_shown_without_the_hash() {
    let reply = create_user_service(new_alice(), Ok(StoreReply::Inserted));
    assert_eq!(
        reply,
        Reply {
            status: 201,
            body: Payload::Created(CreateUserResponse {
                id: "id-alice".to_string(),
                username: "alice".to_string(),
                first_name: "A".to_string(),
                last_name: "Liss".to_string(),
                email: "a@x.com".to_string(),
                timestamp: Timestamp { secs: 50, nanos: 5 },
            }),
            authorization: None,
        }
    );
    assert!(!shown(&reply).contains("$2b$04$hash"));
}

#[test]
fn a_registration_under_a_taken_username_is_a_conflict() {
    let reply = create_user_service(
        new_alice(),
        Err(DataAccessError::Query(fault(FaultKind::UniqueViolation))),
    );
    assert_eq!(reply, error(409, "Failed to create user", "uniqueness constraint violated"));
}

#[test]
fn every_other_failure_of_a_registration_is_an_internal_error() {
    assert_eq!(
        create_user_service(new_alice(), Err(DataAccessError::Query(fault(FaultKind::Other)))),
        error(500, "Failed to create user", "query failed")
    );
    assert_eq!(
        create_user_service(new_alice(), Err(DataAccessError::Commit(fault(FaultKind::Other)))),
        error(500, "Failed to create user", "commit failed")
    );
    assert_eq!(
        create_user_service(
            new_alice(),
            Err(DataAccessError::Commit(fault(FaultKind::UniqueViolation)))
        ),
        error(500, "Failed to create user", "commit failed")
    );
    assert_eq!(
        create_user_service(new_alice(), Err(DataAccessError::Query(fault(FaultKind::Aborted)))),
        error(500, "Database interaction failed", "unit of work aborted")
    );
    assert_eq!(
        create_user_service(new_alice(), Err(DataAccessError::PoolUnavailable)),
        error(500, "failed to get connection", "connection pool unavailable")
    );
    assert_eq!(
        create_user_service(new_alice(), Ok(StoreReply::Accounts(vec![]))),
        error(500, "Failed to create user", "unexpected reply from the store")
    );
}

#[test]
fn no_reply_shows_the_stores_own_words() {
    let failures: Vec<fn() -> DataAccessResult> = vec![
        || Err(DataAccessError::Query(fault(FaultKind::UniqueViolation))),
        || Err(DataAccessError::Query(fault(FaultKind::Other))),
        || Err(DataAccessError::Query(fault(FaultKind::Aborted))),
        || Err(DataAccessError::Commit(fault(FaultKind::Other))),
        || Err(DataAccessError::PoolUnavailable),
    ];
    for failure in failures {
        let replies = vec![
            create_user_service(new_alice(), failure()),
            login_service(login("alice", "pw123"), failure()),
            get_my_profile_service(failure()),
            list_users_service(failure()),
        ];
        for reply in replies {
            assert!(!shown(&reply).contains("duplicate key"));
            assert!(reply.status == 500 || reply.status == 409);
            assert_eq!(reply.authorization, None);
        }
    }
}

#[test]
fn the_account_for_a_registration_takes_the_request_and_hashes_the_password() {
    let body = CreateUserRequest {
        first_name: "A".to_string(),
        last_name: "Liss".to_string(),
        username: "alice".to_string(),
        password: "pw123".to_string(),
        email: "a@x.com".to_string(),
    };
    let new_user = new_account(body).unwrap();
    assert_eq!(new_user.username, "alice");
    assert_eq!(new_user.first_name, "A");
    assert_eq!(new_user.last_name, "Liss");
    assert_eq!(new_user.email, "a@x.com");
    assert_eq!(new_user.id.len(), 36);
    assert_ne!(new_user.password, "pw123");
    assert_eq!(bcrypt::verify("pw123", &new_user.password).unwrap(), true);
    assert_eq!(insert_new_user(&new_user), StoreRequest::InsertAccount(new_user));
}

#[test]
fn the_response_builders_put_status_body_and_token_where_they_belong() {
    assert_eq!(
        create_response(201, Payload::Text("x".to_string())),
        Reply { status: 201, body: Payload::Text("x".to_string()), authorization: None }
    );
    assert_eq!(
        account_service::user::services::list_users_service::into_response(
            200,
            Payload::Text("y".to_string())
        ),
        Reply { status: 200, body: Payload::Text("y".to_string()), authorization: None }
    );
    assert_eq!(
        account_service::user::services::login_service::into_response(
            200,
            Payload::Text("z".to_string()),
            Some("tok".to_string())
        ),
        Reply {
            status: 200,
            body: Payload::Text("z".to_string()),
            authorization: Some("tok".to_string())
        }
    );
    assert_eq!(Reply::error(404, "a", "b"), error(404, "a", "b"));
    assert_eq!(Reply::text(404, "a"), text(404, "a"));
    let with_status = ErrorResponseWithStatus {
        status: 418,
        error_response: ErrorResponse::new("short", "stout"),
    };
    assert_eq!(with_status.into_response(), error(418, "short", "stout"));
}

#[test]
fn a_login_selects_by_username() {
    assert_eq!(
        login_query(&login("alice", "pw123")),
        StoreRequest::AccountsByUsername("alice".to_string())
    );
}

#[test]
fn a_login_with_the_right_password_gets_the_account_and_a_token_for_its_id() {
    let alice = row("id-alice", "alice", "pw123", 50);
    let reply =
        login_service_at(login("alice", "pw123"), Ok(StoreReply::Accounts(vec![alice])), b"k", 1000);
    assert_eq!(reply.status, 200);
    assert_eq!(
        reply.body,
        Payload::Account(UserResponse {
            id: "id-alice".to_string(),
            username: "alice".to_string(),
            first_name: "A".to_string(),
            last_name: "Liss".to_string(),
            email: "a@x.com".to_string(),
            timestamp: Timestamp { secs: 50, nanos: 0 },
        })
    );
    let token = reply.authorization.clone().unwrap();
    assert_eq!(
        Claims::verify_at(&token, b"k", 1000),
        Ok(Claims { sub: "id-alice".to_string(), exp: 4600 })
    );
    assert_eq!(token, Claims::issued_at("id-alice".to_string(), 1000).encode_with(b"k"));
    assert!(!shown(&reply).contains("$2b$"));
}

#[test]
fn a_wrong_password_and_an_unknown_username_get_the_same_refusal() {
    let alice = row("id-alice", "alice", "pw123", 50);
    let wrong =
        login_service_at(login("alice", "wrong"), Ok(StoreReply::Accounts(vec![alice])), b"k", 1000);
    let unknown = login_service_at(login("nobody", "pw123"), Ok(StoreReply::Accounts(vec![])), b"k", 7);
    assert_eq!(wrong, unknown);
    assert_eq!(wrong, error(401, "invalid credentials", "invalid credentials"));
}

#[test]
fn a_username_held_by_two_accounts_is_an_internal_error() {
    let first = row("id-1", "alice", "pw123", 50);
    let second = row("id-2", "alice", "pw123", 60);
    let reply = login_service_at(
        login("alice", "pw123"),
        Ok(StoreReply::Accounts(vec![first, second])),
        b"k",
        1000,
    );
    assert_eq!(reply, error(500, "server error", "username is not unique"));
}

#[test]
fn a_stored_value_that_is_no_hash_is_an_internal_error() {
    let mut broken = row("id-alice", "alice", "pw123", 50);
    broken.password = "pw123".to_string();
    let reply =
        login_service_at(login("alice", "pw123"), Ok(StoreReply::Accounts(vec![broken])), b"k", 1000);
    assert_eq!(reply, error(500, "server error", "credential check failed"));
}

#[test]
fn a_login_whose_unit_of_work_failed_is_an_internal_error() {
    assert_eq!(
        login_service_at(
            login("alice", "pw123"),
            Err(DataAccessError::Query(fault(FaultKind::Other))),
            b"k",
            0
        ),
        error(500, "server error", "query failed")
    );
    assert_eq!(
        login_service_at(
            login("alice", "pw123"),
            Err(DataAccessError::Query(fault(FaultKind::Aborted))),
            b"k",
            0
        ),
        error(500, "server error", "unit of work aborted")
    );
    assert_eq!(
        login_service_at(login("alice", "pw123"), Err(DataAccessError::PoolUnavailable), b"k", 0),
        error(500, "failed to get connection", "connection pool unavailable")
    );
    assert_eq!(
        login_service_at(login("alice", "pw123"), Ok(StoreReply::Inserted), b"k", 0),
        error(500, "server error", "unexpected reply from the store")
    );
}

#[test]
fn a_login_under_the_service_key_issues_a_token_that_authenticates() {
    let alice = row("id-alice", "alice", "pw123", 50);
    let reply = login_service(login("alice", "pw123"), Ok(StoreReply::Accounts(vec![alice])));
    assert_eq!(reply.status, 200);
    let token = reply.authorization.unwrap();
    assert_eq!(Claims::from_token(token).unwrap().sub, "id-alice");
    let refused = login_service(login("alice", "pw123"), Ok(StoreReply::Accounts(vec![])));
    assert_eq!(refused, error(401, "invalid credentials", "invalid credentials"));
}

#[test]
fn holding_a_password_against_one_account_grants_or_refuses() {
    let granted = login_account("pw123".to_string(), row("id-alice", "alice", "pw123", 50), b"k", 10);
    assert_eq!(granted.status, 200);
    assert!(granted.authorization.is_some());
    let refused = login_account("nope".to_string(), row("id-alice", "alice", "pw123", 50), b"k", 10);
    assert_eq!(refused, error(401, "invalid credentials", "invalid credentials"));
}

#[test]
fn a_profile_lookup_selects_by_the_tokens_subject() {
    let claims = Claims { sub: "id-alice".to_string(), exp: 9 };
    assert_eq!(profile_query(&claims), StoreRequest::AccountById("id-alice".to_string()));
}

#[test]
fn a_profile_lookup_shows_the_first_match_or_not_found() {
    let alice = row("id-alice", "alice", "pw123", 50);
    let other = row("id-other", "other", "pw", 60);
    let reply = get_my_profile_service(Ok(StoreReply::Accounts(vec![alice, other])));
    assert_eq!(
        reply,
        Reply {
            status: 200,
            body: Payload::Account(UserResponse {
                id: "id-alice".to_string(),
                username: "alice".to_string(),
                first_name: "A".to_string(),
                last_name: "Liss".to_string(),
                email: "a@x.com".to_string(),
                timestamp: Timestamp { secs: 50, nanos: 0 },
            }),
            authorization: None,
        }
    );
    assert_eq!(get_my_profile_service(Ok(StoreReply::Accounts(vec![]))), text(404, "user not found"));
}

#[test]
fn a_profile_lookup_that_failed_is_an_internal_error() {
    assert_eq!(
        get_my_profile_service(Err(DataAccessError::Query(fault(FaultKind::Other)))),
        text(500, "failed to retrieve user")
    );
    assert_eq!(
        get_my_profile_service(Err(DataAccessError::Commit(fault(FaultKind::Other)))),
        text(500, "failed to retrieve user")
    );
    assert_eq!(
        get_my_profile_service(Err(DataAccessError::Query(fault(FaultKind::Aborted)))),
        text(500, "failed to interact with the database")
    );
    assert_eq!(
        get_my_profile_service(Err(DataAccessError::PoolUnavailable)),
        error(500, "failed to get connection", "connection pool unavailable")
    );
    assert_eq!(get_my_profile_service(Ok(StoreReply::Inserted)), text(500, "failed to retrieve user"));
}

#[test]
fn a_listing_selects_everything_newest_first() {
    assert_eq!(list_query(), StoreRequest::AllAccountsNewestFirst);
}

#[test]
fn a_listing_keeps_the_order_of_the_rows_and_drops_the_hashes() {
    let bob = row("id-bob", "bob", "pw", 60);
    let alice = row("id-alice", "alice", "pw123", 50);
    let reply = list_users_service(Ok(StoreReply::Accounts(vec![bob, alice])));
    assert_eq!(reply.status, 200);
    assert_eq!(reply.authorization, None);
    match &reply.body {
        Payload::Accounts(listing) => {
            let names: Vec<&str> = listing.users.iter().map(|u| u.username.as_str()).collect();
            assert_eq!(names, vec!["bob", "alice"]);
            assert_eq!(listing.users[0].timestamp, Timestamp { secs: 60, nanos: 0 });
            assert_eq!(listing.users[1].id, "id-alice");
        }
        other => panic!("not a listing: {:?}", other),
    }
    assert!(!shown(&reply).contains("$2b$"));
    assert_eq!(
        list_users_service(Ok(StoreReply::Accounts(vec![]))),
        Reply {
            status: 200,
            body: Payload::Accounts(ListUsersResponse { users: vec![] }),
            authorization: None
        }
    );
}

#[test]
fn a_listing_that_failed_is_an_internal_error() {
    assert_eq!(
        list_users_service(Err(DataAccessError::Query(fault(FaultKind::Other)))),
        error(500, "Failed to retrieve users", "query failed")
    );
    assert_eq!(
        list_users_service(Err(DataAccessError::Query(fault(FaultKind::Aborted)))),
        error(500, "Database interaction failed", "unit of work aborted")
    );
    assert_eq!(
        list_users_service(Err(DataAccessError::PoolUnavailable)),
        error(500, "failed to get connection", "connection pool unavailable")
    );
    assert_eq!(
        list_users_service(Ok(StoreReply::Inserted)),
        error(500, "Failed to retrieve users", "unexpected reply from the store")
    );
}

#[test]
fn the_common_failure_reply_picks_the_title_by_the_kind_of_failure() {
    assert_eq!(
        failure_reply("title", "abort", &DataAccessError::Query(fault(FaultKind::Other))),
        error(500, "title", "query failed")
    );
    assert_eq!(
        failure_reply("title", "abort", &DataAccessError::Query(fault(FaultKind::UniqueViolation))),
        error(500, "title", "uniqueness constraint violated")
    );
    assert_eq!(
        failure_reply("title", "abort", &DataAccessError::Query(fault(FaultKind::Aborted))),
        error(500, "abort", "unit of work aborted")
    );
    assert_eq!(
        failure_reply("title", "abort", &DataAccessError::PoolUnavailable),
        error(500, "failed to get connection", "connection pool unavailable")
    );
}

#[test]
fn rows_convert_to_their_public_part() {
    let alice = row("id-alice", "alice", "pw123", 50);
    let schema = UserSchema::from(alice.clone());
    assert_eq!(
        schema,
        UserSchema {
            id: "id-alice".to_string(),
            username: "alice".to_string(),
            first_name: "A".to_string(),
            last_name: "Liss".to_string(),
            email: "a@x.com".to_string(),
            timestamp: Timestamp { secs: 50, nanos: 0 },
        }
    );
    let response = UserResponse::of(alice.clone());
    assert_eq!((response.id.as_str(), response.username.as_str()), ("id-alice", "alice"));
    let created = CreateUserResponse::of(new_alice());
    assert_eq!((created.id.as_str(), created.email.as_str()), ("id-alice", "a@x.com"));
    let listing = ListUsersResponse::of(&vec![alice.clone(), row("id-bob", "bob", "pw", 60)]);
    assert_eq!(listing.users.len(), 2);
    assert_eq!(listing.users[0], schema);
    assert_eq!(listing.users[1].username, "bob");
}

#[test]
fn a_registration_whose_account_cannot_be_built_is_an_internal_error() {
    assert_eq!(
        registration_rejected(RegistrationError::Credential(CredentialError::Hash)),
        error(500, "Failed to create user", "credential hashing failed")
    );
    assert_eq!(
        registration_rejected(RegistrationError::Clock),
        error(500, "Failed to create user", "clock unavailable")
    );
}
