//! Registration: store a new account.
//!
//! The password is hashed before anything reaches the store, and the reply
//! shows the account without the hash. The unit of work is a single insert; a
//! username that is already taken is turned down by the store's uniqueness
//! constraint and reported to the caller as a conflict.

use crate::commons::schema::{
    error_reply,
    Payload,
    PayloadView,
    Reply,
    ReplyView,
    STATUS_CONFLICT,
    STATUS_CREATED,
    STATUS_INTERNAL_SERVER_ERROR,
};
use crate::state::{result_view, DataAccessResult, StoreReply, StoreRequest};
use crate::store::{spec_run, taken, well_formed};
use crate::user::models::{hashed, AccountView, NewUser, RegistrationError, ID_LEN};
use crate::user::schemas::{profile_of, CreateUserRequest, CreateUserResponse};
use crate::user::services::{failure_reply, failure_reply_of};
use vstd::prelude::*;

verus! {

/// The reply to a registration of `new_user`, given what the unit of work came
/// to.
pub open spec fn registration_reply(new_user: AccountView, result: DataAccessResult) -> ReplyView {
    match result {
        Ok(StoreReply::Inserted) => ReplyView {
            status: STATUS_CREATED,
            body: PayloadView::Created(profile_of(new_user)),
            authorization: None,
        },
        Ok(StoreReply::Accounts(_)) => error_reply(
            STATUS_INTERNAL_SERVER_ERROR,
            "Failed to create user"@,
            "unexpected reply from the store"@,
        ),
        Err(error) => if error.spec_is_conflict() {
            error_reply(STATUS_CONFLICT, "Failed to create user"@, error.spec_category())
        } else {
            failure_reply_of("Failed to create user"@, "Database interaction failed"@, error)
        },
    }
}

/// The reply to a registration whose password could not be hashed.
pub open spec fn hasher_failure_reply() -> ReplyView {
    error_reply(STATUS_INTERNAL_SERVER_ERROR, "Failed to create user"@, "credential hashing failed"@)
}

/// The reply to a registration for which the clock gave no time of creation.
pub open spec fn clock_failure_reply() -> ReplyView {
    error_reply(STATUS_INTERNAL_SERVER_ERROR, "Failed to create user"@, "clock unavailable"@)
}

/// The reply to a registration whose account could not be built.
pub open spec fn rejection_reply(error: RegistrationError) -> ReplyView {
    match error {
        RegistrationError::Credential(_) => hasher_failure_reply(),
        RegistrationError::Clock => clock_failure_reply(),
    }
}

/// A reply with the given status and body, and no token.
pub fn create_response(status_code: u16, body: Payload) -> (reply: Reply)
    ensures
        reply == (Reply { status: status_code, body, authorization: None }),
{
    Reply { status: status_code, body, authorization: None }
}

/// The reply to a registration whose account could not be built: an internal
/// error that names what failed.
pub fn registration_rejected(error: RegistrationError) -> (reply: Reply)
    ensures
        reply@ == rejection_reply(error),
{
    match error {
        RegistrationError::Credential(_) => Reply::error(
            STATUS_INTERNAL_SERVER_ERROR,
            "Failed to create user",
            "credential hashing failed",
        ),
        RegistrationError::Clock => Reply::error(
            STATUS_INTERNAL_SERVER_ERROR,
            "Failed to create user",
            "clock unavailable",
        ),
    }
}

/// The account to insert for a registration, or the reply to send at once if
/// the password cannot be hashed or the clock gives no time of creation.
///
/// The account takes its names and address from the request as they are, and
/// its stored hash verifies against the request's password.
pub fn new_account(body: CreateUserRequest) -> (r: Result<NewUser, Reply>)
    ensures
        match r {
            Ok(new_user) => {
                &&& new_user@.id.len() == ID_LEN
                &&& new_user@.username == body.username@
                &&& hashed(body.password@, new_user@.password)
                &&& new_user@.first_name == body.first_name@
                &&& new_user@.last_name == body.last_name@
                &&& new_user@.email == body.email@
            },
            Err(reply) => reply@ == hasher_failure_reply() || reply@ == clock_failure_reply(),
        },
{
    match NewUser::new(body.username, body.password, body.first_name, body.last_name, body.email) {
        Ok(new_user) => Ok(new_user),
        Err(error) => Err(registration_rejected(error)),
    }
}

/// The statement a registration runs: insert the account, once.
pub fn insert_new_user(new_user: &NewUser) -> (work: StoreRequest)
    ensures
        work == StoreRequest::InsertAccount(*new_user),
{
    StoreRequest::InsertAccount(new_user.clone())
}

/// Answers a registration of `new_user`, given what the unit of work came to.
///
/// An insert that took effect is answered with the created account, shown
/// without its hash. A uniqueness conflict is answered as a conflict; every
/// other failure as an internal error.
pub fn create_user_service(new_user: NewUser, result: DataAccessResult) -> (reply: Reply)
    ensures
        reply@ == registration_reply(new_user@, result),
{
    match result {
        Ok(StoreReply::Inserted) => create_response(
            STATUS_CREATED,
            Payload::Created(CreateUserResponse::of(new_user)),
        ),
        Ok(StoreReply::Accounts(_)) => Reply::error(
            STATUS_INTERNAL_SERVER_ERROR,
            "Failed to create user",
            "unexpected reply from the store",
        ),
        Err(error) => {
            if error.is_conflict() {
                Reply::error(STATUS_CONFLICT, "Failed to create user", error.category())
            } else {
                failure_reply("Failed to create user", "Database interaction failed", &error)
            }
        },
    }
}

/// Of two registrations under one username that is still free, run one after
/// the other against well-formed rows, the first is answered as created and
/// the second as a conflict.
pub proof fn lemma_one_created_one_conflict(
    table: Seq<AccountView>,
    first: NewUser,
    second: NewUser,
    first_result: DataAccessResult,
    second_result: DataAccessResult,
)
    requires
        well_formed(table),
        !taken(table, first@),
        first@.username == second@.username,
        result_view(first_result) == spec_run(
            true,
            table,
            StoreRequest::InsertAccount(first),
        ).1,
        result_view(second_result) == spec_run(
            true,
            spec_run(true, table, StoreRequest::InsertAccount(first)).0,
            StoreRequest::InsertAccount(second),
        ).1,
    ensures
        registration_reply(first@, first_result).status == STATUS_CREATED,
        registration_reply(second@, second_result).status == STATUS_CONFLICT,
{
    crate::store::lemma_one_registration_wins(table, first, second);
}

} // verus!
