//! Response shapes shared by all operations.

use crate::commons::auth::{Claims, ClaimsView};
use crate::user::schemas::{CreateUserResponse, ListUsersResponse, ProfileView, UserResponse};
use vstd::prelude::*;

verus! {

/// Status of a response that carries what was asked for.
pub const STATUS_OK: u16 = 200;

/// Status of a response to a registration that stored a new account.
pub const STATUS_CREATED: u16 = 201;

/// Status of a rejected credential header that is not text.
pub const STATUS_BAD_REQUEST: u16 = 400;

/// Status of a response to missing, unusable or wrong credentials.
pub const STATUS_UNAUTHORIZED: u16 = 401;

/// Status of a response to a lookup that matched no account.
pub const STATUS_NOT_FOUND: u16 = 404;

/// Status of a response to a registration whose username is taken.
pub const STATUS_CONFLICT: u16 = 409;

/// Status of a response to a failure of the pool, a query or a commit.
pub const STATUS_INTERNAL_SERVER_ERROR: u16 = 500;

/// Body of a failed operation: a short title and a generic category. Neither
/// field ever carries the text of an internal error.
#[derive(Debug, PartialEq, Eq)]
pub struct ErrorResponse {
    pub error: String,
    pub details: String,
}

/// Mathematical value of an [`ErrorResponse`].
pub struct ErrorView {
    pub error: Seq<char>,
    pub details: Seq<char>,
}

impl View for ErrorResponse {
    type V = ErrorView;

    open spec fn view(&self) -> ErrorView {
        ErrorView { error: self.error@, details: self.details@ }
    }
}

impl ErrorResponse {
    /// An error body with the given title and category.
    pub fn new(error: &str, details: &str) -> (r: ErrorResponse)
        ensures
            r@ == (ErrorView { error: error@, details: details@ }),
    {
        ErrorResponse { error: error.to_owned(), details: details.to_owned() }
    }
}

/// An error body together with the status it is sent under.
#[derive(Debug, PartialEq, Eq)]
pub struct ErrorResponseWithStatus {
    pub status: u16,
    pub error_response: ErrorResponse,
}

/// What a response carries.
#[derive(Debug, PartialEq, Eq)]
pub enum Payload {
    /// The account a registration created.
    Created(CreateUserResponse),
    /// One account.
    Account(UserResponse),
    /// A listing of accounts.
    Accounts(ListUsersResponse),
    /// The claims of a token.
    Claims(Claims),
    /// A failure, as title and category.
    Error(ErrorResponse),
    /// A failure, as one line of text.
    Text(String),
}

/// Mathematical value of a [`Payload`].
pub enum PayloadView {
    Created(ProfileView),
    Account(ProfileView),
    Accounts(Seq<ProfileView>),
    Claims(ClaimsView),
    Error(ErrorView),
    Text(Seq<char>),
}

impl View for Payload {
    type V = PayloadView;

    open spec fn view(&self) -> PayloadView {
        match *self {
            Payload::Created(account) => PayloadView::Created(account@),
            Payload::Account(account) => PayloadView::Account(account@),
            Payload::Accounts(listing) => PayloadView::Accounts(listing@),
            Payload::Claims(claims) => PayloadView::Claims(claims@),
            Payload::Error(error) => PayloadView::Error(error@),
            Payload::Text(text) => PayloadView::Text(text@),
        }
    }
}

/// The outcome of an operation as the transport is to send it: a status, a
/// body, and the token to put in the `Authorization` header, if one was issued.
#[derive(Debug, PartialEq, Eq)]
pub struct Reply {
    pub status: u16,
    pub body: Payload,
    pub authorization: Option<String>,
}

/// Mathematical value of a [`Reply`].
pub struct ReplyView {
    pub status: u16,
    pub body: PayloadView,
    pub authorization: Option<Seq<char>>,
}

impl View for Reply {
    type V = ReplyView;

    open spec fn view(&self) -> ReplyView {
        ReplyView {
            status: self.status,
            body: self.body@,
            authorization: match self.authorization {
                Some(token) => Some(token@),
                None => None,
            },
        }
    }
}

/// The reply that reports a failure as title and category, with no token.
pub open spec fn error_reply(status: u16, error: Seq<char>, details: Seq<char>) -> ReplyView {
    ReplyView {
        status,
        body: PayloadView::Error(ErrorView { error, details }),
        authorization: None,
    }
}

/// The reply that reports a failure as one line of text, with no token.
pub open spec fn text_reply(status: u16, text: Seq<char>) -> ReplyView {
    ReplyView { status, body: PayloadView::Text(text), authorization: None }
}

impl Reply {
    /// A reply that reports a failure as title and category.
    pub fn error(status: u16, error: &str, details: &str) -> (reply: Reply)
        ensures
            reply@ == error_reply(status, error@, details@),
    {
        Reply {
            status,
            body: Payload::Error(ErrorResponse::new(error, details)),
            authorization: None,
        }
    }

    /// A reply that reports a failure as one line of text.
    pub fn text(status: u16, text: &str) -> (reply: Reply)
        ensures
            reply@ == text_reply(status, text@),
    {
        Reply { status, body: Payload::Text(text.to_owned()), authorization: None }
    }
}

impl ErrorResponseWithStatus {
    /// The reply that sends this error under its status.
    pub fn into_response(self) -> (reply: Reply)
        ensures
            reply@ == error_reply(
                self.status,
                self.error_response@.error,
                self.error_response@.details,
            ),
    {
        Reply { status: self.status, body: Payload::Error(self.error_response), authorization: None }
    }
}

} // verus!
