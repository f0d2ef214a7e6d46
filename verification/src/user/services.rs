//! The four account operations.
//!
//! Each operation names the statement its unit of work is to run, and turns
//! what the unit of work came to into the reply for the caller. Every failure
//! is classified once, here, and mapped to exactly one reply.

use crate::commons::schema::{error_reply, Reply, ReplyView, STATUS_INTERNAL_SERVER_ERROR};
use crate::state::{connection_unavailable, DataAccessError};
use vstd::prelude::*;

pub mod create_user_service;
pub mod get_my_profile;
pub mod list_users_service;
pub mod login_service;

verus! {

/// The reply to an operation whose unit of work could not lease a connection.
pub open spec fn pool_unavailable_reply() -> ReplyView {
    error_reply(
        STATUS_INTERNAL_SERVER_ERROR,
        "failed to get connection"@,
        DataAccessError::PoolUnavailable.spec_category(),
    )
}

/// The reply to a unit of work that failed for a reason that is not the
/// caller's to resolve. A refused lease is reported as such; work that was cut
/// short goes under `abort_title`, any other failure under `title`. The second
/// line is the failure's category.
pub open spec fn failure_reply_of(
    title: Seq<char>,
    abort_title: Seq<char>,
    error: DataAccessError,
) -> ReplyView {
    if error is PoolUnavailable {
        pool_unavailable_reply()
    } else if error.spec_is_abort() {
        error_reply(STATUS_INTERNAL_SERVER_ERROR, abort_title, error.spec_category())
    } else {
        error_reply(STATUS_INTERNAL_SERVER_ERROR, title, error.spec_category())
    }
}

/// The reply to a unit of work that failed for a reason that is not the
/// caller's to resolve.
pub fn failure_reply(title: &str, abort_title: &str, error: &DataAccessError) -> (reply: Reply)
    ensures
        reply@ == failure_reply_of(title@, abort_title@, *error),
{
    match error {
        DataAccessError::PoolUnavailable => connection_unavailable().into_response(),
        _ => {
            if error.is_abort() {
                Reply::error(STATUS_INTERNAL_SERVER_ERROR, abort_title, error.category())
            } else {
                Reply::error(STATUS_INTERNAL_SERVER_ERROR, title, error.category())
            }
        },
    }
}

} // verus!
