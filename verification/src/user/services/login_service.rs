//! Login: trade a username and password for a token.
//!
//! The unit of work selects the accounts with the given username. None found
//! and a wrong password come to the very same reply, so a caller cannot learn
//! from the answer which usernames exist. More than one account under a
//! username breaks the store's own invariant; the operation then reports an
//! internal error rather than pick one.

use crate::commons::auth::{expiry_of, issued, service_key, Claims, ClaimsView};
use crate::commons::clock::now_seconds;
use crate::commons::jwt::hs256_token;
use crate::commons::schema::{
    error_reply,
    Payload,
    PayloadView,
    Reply,
    ReplyView,
    STATUS_INTERNAL_SERVER_ERROR,
    STATUS_OK,
    STATUS_UNAUTHORIZED,
};
use crate::state::{DataAccessResult, StoreReply, StoreRequest};
use crate::user::models::{bcrypt_verdict, User};
use crate::user::schemas::{profile_of, LoginRequest, UserResponse};
use crate::user::services::{failure_reply, failure_reply_of};
use vstd::prelude::*;

verus! {

/// The reply to a login that is turned down, whatever the reason.
pub open spec fn unauthorized_reply() -> ReplyView {
    error_reply(STATUS_UNAUTHORIZED, "invalid credentials"@, "invalid credentials"@)
}

/// The reply to a login that holds `password` against the one account `user`,
/// at the instant `now`, with tokens signed under `key`.
pub open spec fn credential_reply(password: Seq<char>, user: User, key: Seq<u8>, now: u64)
    -> ReplyView {
    match bcrypt_verdict(password, user@.password) {
        Some(true) => ReplyView {
            status: STATUS_OK,
            body: PayloadView::Account(profile_of(user@)),
            authorization: Some(hs256_token(user@.id, expiry_of(now), key)),
        },
        Some(false) => unauthorized_reply(),
        None => error_reply(
            STATUS_INTERNAL_SERVER_ERROR,
            "server error"@,
            "credential check failed"@,
        ),
    }
}

/// The reply to a login with `password`, given what the unit of work came to.
pub open spec fn login_reply(password: Seq<char>, result: DataAccessResult, key: Seq<u8>, now: u64)
    -> ReplyView {
    match result {
        Ok(StoreReply::Accounts(rows)) => {
            if rows@.len() == 0 {
                unauthorized_reply()
            } else if rows@.len() == 1 {
                credential_reply(password, rows@[0], key, now)
            } else {
                error_reply(
                    STATUS_INTERNAL_SERVER_ERROR,
                    "server error"@,
                    "username is not unique"@,
                )
            }
        },
        Ok(StoreReply::Inserted) => error_reply(
            STATUS_INTERNAL_SERVER_ERROR,
            "server error"@,
            "unexpected reply from the store"@,
        ),
        Err(error) => failure_reply_of("server error"@, "server error"@, error),
    }
}

/// That a token in the reply goes with a granted login, and was issued at
/// `now` under `key` to the one account the username matched.
pub open spec fn token_is_for_the_account(
    reply: ReplyView,
    result: DataAccessResult,
    key: Seq<u8>,
    now: u64,
) -> bool {
    reply.authorization matches Some(token) ==> {
        &&& reply.status == STATUS_OK
        &&& result matches Ok(StoreReply::Accounts(rows))
        &&& rows@.len() == 1
        &&& issued(ClaimsView { sub: rows@[0]@.id, exp: expiry_of(now) }, token, key)
    }
}

/// A reply with the given status and body, and with the token in the
/// `Authorization` header if there is one.
pub fn into_response(status: u16, body: Payload, token: Option<String>) -> (reply: Reply)
    ensures
        reply == (Reply { status, body, authorization: token }),
{
    Reply { status, body, authorization: token }
}

/// The statement a login runs: select the accounts with the given username.
pub fn login_query(body: &LoginRequest) -> (work: StoreRequest)
    ensures
        work == StoreRequest::AccountsByUsername(body.username),
{
    StoreRequest::AccountsByUsername(body.username.clone())
}

/// Holds `password` against the one account the username matched and answers
/// the login: the account's public part and a fresh token for its identifier
/// if the password is right, the common refusal if it is wrong.
pub fn login_account(password: String, user: User, key: &[u8], now: u64) -> (reply: Reply)
    ensures
        reply@ == credential_reply(password@, user, key@, now),
        reply@.authorization matches Some(token) ==> issued(
            ClaimsView { sub: user@.id, exp: expiry_of(now) },
            token,
            key@,
        ),
{
    match user.verify_password(password) {
        Ok(true) => {
            let token = Claims::issued_at(user.id.clone(), now);
            let raw_token = token.encode_with(key);
            into_response(STATUS_OK, Payload::Account(UserResponse::of(user)), Some(raw_token))
        },
        Ok(false) => Reply::error(STATUS_UNAUTHORIZED, "invalid credentials", "invalid credentials"),
        Err(_) => Reply::error(
            STATUS_INTERNAL_SERVER_ERROR,
            "server error",
            "credential check failed",
        ),
    }
}

/// Answers a login at the instant `now`, with tokens signed under `key`, given
/// what the unit of work came to.
///
/// A token is issued only to a login that succeeded, and its subject is the
/// identifier of the account that logged in.
pub fn login_service_at(body: LoginRequest, result: DataAccessResult, key: &[u8], now: u64) -> (reply:
    Reply)
    ensures
        reply@ == login_reply(body.password@, result, key@, now),
        token_is_for_the_account(reply@, result, key@, now),
{
    match result {
        Ok(StoreReply::Accounts(rows)) => {
            let mut rows = rows;
            if rows.len() == 0 {
                Reply::error(STATUS_UNAUTHORIZED, "invalid credentials", "invalid credentials")
            } else if rows.len() == 1 {
                match rows.pop() {
                    Some(user) => login_account(body.password, user, key, now),
                    None => unreached(),
                }
            } else {
                Reply::error(STATUS_INTERNAL_SERVER_ERROR, "server error", "username is not unique")
            }
        },
        Ok(StoreReply::Inserted) => Reply::error(
            STATUS_INTERNAL_SERVER_ERROR,
            "server error",
            "unexpected reply from the store",
        ),
        Err(error) => failure_reply("server error", "server error", &error),
    }
}

/// Answers a login under the service key, at this moment by the system clock,
/// given what the unit of work came to.
///
/// A token is issued only to a login that succeeded, to the identifier of the
/// account that logged in, as of the clock's reading.
pub fn login_service(body: LoginRequest, result: DataAccessResult) -> (reply: Reply)
    ensures
        exists|now: u64|
            reply@ == #[trigger] login_reply(body.password@, result, service_key(), now)
                && token_is_for_the_account(reply@, result, service_key(), now),
        reply@.authorization is Some ==> reply@.status == STATUS_OK,
{
    let key = Claims::get_key();
    let now = now_seconds();
    let ghost asked = body;
    let ghost outcome = result;
    let reply = login_service_at(body, result, key.as_str().as_bytes(), now);
    assert(reply@ == login_reply(asked.password@, outcome, service_key(), now)
        && token_is_for_the_account(reply@, outcome, service_key(), now));
    reply
}

/// A login for a username that matches no account and a login with the wrong
/// password for an account that exists are answered alike, in status, body and
/// headers.
pub proof fn lemma_refusals_look_alike(
    password: Seq<char>,
    other_password: Seq<char>,
    none: Vec<User>,
    found: Vec<User>,
    key: Seq<u8>,
    now: u64,
    later: u64,
)
    requires
        none@.len() == 0,
        found@.len() == 1,
        bcrypt_verdict(other_password, found@[0]@.password) == Some(false),
    ensures
        login_reply(password, Ok(StoreReply::Accounts(none)), key, now) == login_reply(
            other_password,
            Ok(StoreReply::Accounts(found)),
            key,
            later,
        ),
        login_reply(password, Ok(StoreReply::Accounts(none)), key, now) == unauthorized_reply(),
{
}

/// A login with the right password for the one account under the username is
/// granted: the reply shows that account and carries the token for its
/// identifier.
pub proof fn lemma_right_password_is_granted(
    password: Seq<char>,
    found: Vec<User>,
    key: Seq<u8>,
    now: u64,
)
    requires
        found@.len() == 1,
        bcrypt_verdict(password, found@[0]@.password) == Some(true),
    ensures
        login_reply(password, Ok(StoreReply::Accounts(found)), key, now) == (ReplyView {
            status: STATUS_OK,
            body: PayloadView::Account(profile_of(found@[0]@)),
            authorization: Some(hs256_token(found@[0]@.id, expiry_of(now), key)),
        }),
{
}

} // verus!
