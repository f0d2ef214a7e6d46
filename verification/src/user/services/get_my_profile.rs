//! Profile lookup: show the account a verified token speaks for.
//!
//! The subject comes from a token that has already passed the authentication
//! check. The lookup is an ordinary select by identifier; that the token
//! verified does not mean the account is still there.

use crate::commons::auth::Claims;
use crate::commons::schema::{
    text_reply,
    Payload,
    PayloadView,
    Reply,
    ReplyView,
    STATUS_INTERNAL_SERVER_ERROR,
    STATUS_NOT_FOUND,
    STATUS_OK,
};
use crate::state::{connection_unavailable, DataAccessError, DataAccessResult, StoreReply, StoreRequest};
use crate::user::schemas::{profile_of, UserResponse};
use crate::user::services::pool_unavailable_reply;
use vstd::prelude::*;

verus! {

/// The reply to a profile lookup, given what the unit of work came to.
pub open spec fn profile_reply(result: DataAccessResult) -> ReplyView {
    match result {
        Ok(StoreReply::Accounts(rows)) => {
            if rows@.len() == 0 {
                text_reply(STATUS_NOT_FOUND, "user not found"@)
            } else {
                ReplyView {
                    status: STATUS_OK,
                    body: PayloadView::Account(profile_of(rows@[0]@)),
                    authorization: None,
                }
            }
        },
        Ok(StoreReply::Inserted) => text_reply(
            STATUS_INTERNAL_SERVER_ERROR,
            "failed to retrieve user"@,
        ),
        Err(error) => if error is PoolUnavailable {
            pool_unavailable_reply()
        } else if error.spec_is_abort() {
            text_reply(STATUS_INTERNAL_SERVER_ERROR, "failed to interact with the database"@)
        } else {
            text_reply(STATUS_INTERNAL_SERVER_ERROR, "failed to retrieve user"@)
        },
    }
}

/// The statement a profile lookup runs: select the accounts whose identifier
/// is the token's subject.
pub fn profile_query(claims: &Claims) -> (work: StoreRequest)
    ensures
        work == StoreRequest::AccountById(claims.sub),
{
    StoreRequest::AccountById(claims.sub.clone())
}

/// Answers a profile lookup, given what the unit of work came to: the first
/// account the select matched, or "not found" if it matched none.
pub fn get_my_profile_service(result: DataAccessResult) -> (reply: Reply)
    ensures
        reply@ == profile_reply(result),
{
    match result {
        Ok(StoreReply::Accounts(rows)) => {
            if rows.len() == 0 {
                Reply::text(STATUS_NOT_FOUND, "user not found")
            } else {
                let user = rows[0].clone();
                Reply {
                    status: STATUS_OK,
                    body: Payload::Account(UserResponse::of(user)),
                    authorization: None,
                }
            }
        },
        Ok(StoreReply::Inserted) => Reply::text(
            STATUS_INTERNAL_SERVER_ERROR,
            "failed to retrieve user",
        ),
        Err(DataAccessError::PoolUnavailable) => connection_unavailable().into_response(),
        Err(error) => {
            if error.is_abort() {
                Reply::text(STATUS_INTERNAL_SERVER_ERROR, "failed to interact with the database")
            } else {
                Reply::text(STATUS_INTERNAL_SERVER_ERROR, "failed to retrieve user")
            }
        },
    }
}

} // verus!
