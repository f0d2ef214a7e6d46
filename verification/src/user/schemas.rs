//! Wire shapes of the account operations. None of them has a field for the
//! password hash, so no response can carry it.

use crate::user::models::{AccountView, NewUser, Timestamp, User};
use vstd::prelude::*;

verus! {

/// What a registration asks for.
#[derive(Debug, PartialEq, Eq)]
pub struct CreateUserRequest {
    pub first_name: String,
    pub last_name: String,
    pub username: String,
    pub password: String,
    pub email: String,
}

/// What a login asks for.
#[derive(Debug, PartialEq, Eq)]
pub struct LoginRequest {
    pub username: String,
    pub password: String,
}

/// The account a registration created, as shown to the caller.
#[derive(Debug, PartialEq, Eq)]
pub struct CreateUserResponse {
    pub id: String,
    pub username: String,
    pub first_name: String,
    pub last_name: String,
    pub email: String,
    pub timestamp: Timestamp,
}

/// One account in a listing.
#[derive(Debug, PartialEq, Eq)]
pub struct UserSchema {
    pub id: String,
    pub username: String,
    pub first_name: String,
    pub last_name: String,
    pub email: String,
    pub timestamp: Timestamp,
}

/// A listing of accounts.
#[derive(Debug, PartialEq, Eq)]
pub struct ListUsersResponse {
    pub users: Vec<UserSchema>,
}

/// One account, as shown to the caller of a login or a profile lookup.
#[derive(Debug, PartialEq, Eq)]
pub struct UserResponse {
    pub id: String,
    pub username: String,
    pub first_name: String,
    pub last_name: String,
    pub email: String,
    pub timestamp: Timestamp,
}

/// Mathematical value of an account as shown to callers: everything but the
/// password hash.
pub struct ProfileView {
    pub id: Seq<char>,
    pub username: Seq<char>,
    pub first_name: Seq<char>,
    pub last_name: Seq<char>,
    pub email: Seq<char>,
    pub timestamp: Timestamp,
}

/// The public part of a stored account.
pub open spec fn profile_of(account: AccountView) -> ProfileView {
    ProfileView {
        id: account.id,
        username: account.username,
        first_name: account.first_name,
        last_name: account.last_name,
        email: account.email,
        timestamp: account.timestamp,
    }
}

/// The public parts of a sequence of stored accounts, in the same order.
pub open spec fn profiles_of(rows: Seq<User>) -> Seq<ProfileView> {
    Seq::new(rows.len(), |i: int| profile_of(rows[i]@))
}

impl View for CreateUserResponse {
    type V = ProfileView;

    open spec fn view(&self) -> ProfileView {
        ProfileView {
            id: self.id@,
            username: self.username@,
            first_name: self.first_name@,
            last_name: self.last_name@,
            email: self.email@,
            timestamp: self.timestamp,
        }
    }
}

impl View for UserSchema {
    type V = ProfileView;

    open spec fn view(&self) -> ProfileView {
        ProfileView {
            id: self.id@,
            username: self.username@,
            first_name: self.first_name@,
            last_name: self.last_name@,
            email: self.email@,
            timestamp: self.timestamp,
        }
    }
}

impl View for UserResponse {
    type V = ProfileView;

    open spec fn view(&self) -> ProfileView {
        ProfileView {
            id: self.id@,
            username: self.username@,
            first_name: self.first_name@,
            last_name: self.last_name@,
            email: self.email@,
            timestamp: self.timestamp,
        }
    }
}

impl View for ListUsersResponse {
    type V = Seq<ProfileView>;

    open spec fn view(&self) -> Seq<ProfileView> {
        Seq::new(self.users@.len(), |i: int| self.users@[i]@)
    }
}

impl From<User> for UserSchema {
    fn from(user: User) -> (schema: UserSchema) {
        UserSchema {
            id: user.id,
            username: user.username,
            first_name: user.first_name,
            last_name: user.last_name,
            email: user.email,
            timestamp: user.timestamp,
        }
    }
}

impl vstd::std_specs::convert::FromSpecImpl<User> for UserSchema {
    open spec fn obeys_from_spec() -> bool {
        true
    }

    open spec fn from_spec(user: User) -> UserSchema {
        UserSchema {
            id: user.id,
            username: user.username,
            first_name: user.first_name,
            last_name: user.last_name,
            email: user.email,
            timestamp: user.timestamp,
        }
    }
}

impl UserResponse {
    /// The public part of a stored account.
    pub fn of(user: User) -> (response: UserResponse)
        ensures
            response@ == profile_of(user@),
    {
        UserResponse {
            id: user.id,
            username: user.username,
            first_name: user.first_name,
            last_name: user.last_name,
            email: user.email,
            timestamp: user.timestamp,
        }
    }
}

impl CreateUserResponse {
    /// The public part of an account that has just been inserted.
    pub fn of(new_user: NewUser) -> (response: CreateUserResponse)
        ensures
            response@ == profile_of(new_user@),
    {
        CreateUserResponse {
            id: new_user.id,
            username: new_user.username,
            first_name: new_user.first_name,
            last_name: new_user.last_name,
            email: new_user.email,
            timestamp: new_user.timestamp,
        }
    }
}

impl ListUsersResponse {
    /// The listing of the given rows, in their order.
    pub fn of(rows: &Vec<User>) -> (listing: ListUsersResponse)
        ensures
            listing@ == profiles_of(rows@),
    {
        let mut users: Vec<UserSchema> = Vec::new();
        let mut i: usize = 0;
        while i < rows.len()
            invariant
                i <= rows.len(),
                users@.len() == i,
                forall|j: int| 0 <= j < i ==> (#[trigger] users@[j])@ == profile_of(rows@[j]@),
            decreases rows.len() - i,
        {
            let schema = UserSchema::from(rows[i].clone());
            users.push(schema);
            i += 1;
        }
        let listing = ListUsersResponse { users };
        assert(listing@ =~= profiles_of(rows@));
        listing
    }
}

} // verus!
