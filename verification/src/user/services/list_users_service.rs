//! Listing: show every account, most recently created first.
//!
//! The store does the ordering; the listing keeps the rows in the order the
//! store gave them and drops the hashes.

use crate::commons::schema::{
    error_reply,
    Payload,
    PayloadView,
    Reply,
    ReplyView,
    STATUS_INTERNAL_SERVER_ERROR,
    STATUS_OK,
};
use crate::state::{DataAccessResult, StoreReply, StoreRequest};
use crate::store::newest_first;
use crate::user::models::{accounts_of, User};
use crate::user::schemas::{profiles_of, ListUsersResponse};
use crate::user::services::{failure_reply, failure_reply_of};
use vstd::prelude::*;

verus! {

/// The reply to a listing, given what the unit of work came to.
pub open spec fn listing_reply(result: DataAccessResult) -> ReplyView {
    match result {
        Ok(StoreReply::Accounts(rows)) => ReplyView {
            status: STATUS_OK,
            body: PayloadView::Accounts(profiles_of(rows@)),
            authorization: None,
        },
        Ok(StoreReply::Inserted) => error_reply(
            STATUS_INTERNAL_SERVER_ERROR,
            "Failed to retrieve users"@,
            "unexpected reply from the store"@,
        ),
        Err(error) => failure_reply_of(
            "Failed to retrieve users"@,
            "Database interaction failed"@,
            error,
        ),
    }
}

/// A reply with the given status and body, and no token.
pub fn into_response(status: u16, body: Payload) -> (reply: Reply)
    ensures
        reply == (Reply { status, body, authorization: None }),
{
    Reply { status, body, authorization: None }
}

/// The statement a listing runs: select every account, newest first.
pub fn list_query() -> (work: StoreRequest)
    ensures
        work == StoreRequest::AllAccountsNewestFirst,
{
    StoreRequest::AllAccountsNewestFirst
}

/// Answers a listing, given what the unit of work came to: the public part of
/// every row, in the order of the rows.
pub fn list_users_service(result: DataAccessResult) -> (reply: Reply)
    ensures
        reply@ == listing_reply(result),
{
    match result {
        Ok(StoreReply::Accounts(users)) => {
            let response_users = ListUsersResponse::of(&users);
            into_response(STATUS_OK, Payload::Accounts(response_users))
        },
        Ok(StoreReply::Inserted) => Reply::error(
            STATUS_INTERNAL_SERVER_ERROR,
            "Failed to retrieve users",
            "unexpected reply from the store",
        ),
        Err(error) => failure_reply(
            "Failed to retrieve users",
            "Database interaction failed",
            &error,
        ),
    }
}

/// A listing shows the accounts in the order of the rows, so rows that come
/// newest first make a listing that comes newest first.
pub proof fn lemma_listing_keeps_order(rows: Seq<User>, i: int, j: int)
    requires
        newest_first(accounts_of(rows)),
        0 <= i < j < rows.len(),
    ensures
        profiles_of(rows).len() == rows.len(),
        profiles_of(rows)[i].timestamp.spec_not_before(profiles_of(rows)[j].timestamp),
{
    assert(accounts_of(rows)[i].timestamp.spec_not_before(accounts_of(rows)[j].timestamp));
}

} // verus!
