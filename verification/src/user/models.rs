//! Stored accounts and the credential hasher.
//!
//! A password is stored only as a bcrypt hash. Identifiers come from random
//! UUIDs and creation times from the local clock; both are read once, when the
//! account is built, and never change afterwards.

use crate::commons::clock::system_time;
use vstd::prelude::*;

verus! {

/// Failure of the credential hasher itself. A wrong password is not one: it is
/// the answer `false`.
#[derive(Debug, Clone, Copy, PartialEq, Eq, Structural)]
pub enum CredentialError {
    /// The hasher could not produce a hash.
    Hash,
    /// The stored value is not a hash the hasher can read.
    Verify,
}

/// A calendar instant without a zone: whole seconds counted from 1970-01-01
/// 00:00:00 on the naive calendar, and the nanoseconds past that second.
#[derive(Debug, Clone, Copy, PartialEq, Eq, Structural)]
pub struct Timestamp {
    pub secs: i64,
    pub nanos: u32,
}

impl Timestamp {
    /// Whether `self` is not earlier than `other`.
    pub open spec fn spec_not_before(self, other: Timestamp) -> bool {
        self.secs > other.secs || (self.secs == other.secs && self.nanos >= other.nanos)
    }

    /// Whether `self` is not earlier than `other`.
    #[verifier::when_used_as_spec(spec_not_before)]
    pub fn not_before(self, other: Timestamp) -> (b: bool)
        ensures
            b == self.spec_not_before(other),
    {
        self.secs > other.secs || (self.secs == other.secs && self.nanos >= other.nanos)
    }
}

/// Mathematical value of a stored account, hash included.
pub struct AccountView {
    pub id: Seq<char>,
    pub username: Seq<char>,
    pub password: Seq<char>,
    pub first_name: Seq<char>,
    pub last_name: Seq<char>,
    pub email: Seq<char>,
    pub timestamp: Timestamp,
}

/// An account about to be inserted. `password` holds the hash, never the
/// plaintext.
#[derive(Debug, PartialEq, Eq)]
pub struct NewUser {
    pub id: String,
    pub username: String,
    pub password: String,
    pub first_name: String,
    pub last_name: String,
    pub email: String,
    pub timestamp: Timestamp,
}

/// An account as read back from the store.
#[derive(Debug, PartialEq, Eq)]
pub struct User {
    pub id: String,
    pub username: String,
    pub password: String,
    pub first_name: String,
    pub last_name: String,
    pub email: String,
    pub timestamp: Timestamp,
}

impl View for NewUser {
    type V = AccountView;

    open spec fn view(&self) -> AccountView {
        AccountView {
            id: self.id@,
            username: self.username@,
            password: self.password@,
            first_name: self.first_name@,
            last_name: self.last_name@,
            email: self.email@,
            timestamp: self.timestamp,
        }
    }
}

impl View for User {
    type V = AccountView;

    open spec fn view(&self) -> AccountView {
        AccountView {
            id: self.id@,
            username: self.username@,
            password: self.password@,
            first_name: self.first_name@,
            last_name: self.last_name@,
            email: self.email@,
            timestamp: self.timestamp,
        }
    }
}

/// The mathematical values of a sequence of rows, in the same order.
pub open spec fn accounts_of(rows: Seq<User>) -> Seq<AccountView> {
    Seq::new(rows.len(), |i: int| rows[i]@)
}

/// Number of characters in an account identifier.
pub const ID_LEN: usize = 36;

#[verifier::external_type_specification]
#[verifier::external_body]
pub struct ExBcryptError(bcrypt::BcryptError);

/// What `bcrypt::verify` answers for a password and a stored value: `Some` of
/// the verdict where the stored value parses as a bcrypt hash, `None` where it
/// does not.
pub uninterp spec fn bcrypt_verdict(password: Seq<char>, hash: Seq<char>) -> Option<bool>;

/// `bcrypt::hash` at the crate's default cost, with a salt that bcrypt draws
/// from the operating system. Trusted: whatever hash comes back, `bcrypt::verify`
/// accepts it for the same password, since it re-derives the digest from the
/// cost and salt embedded in the hash. Nothing is claimed about which hash is
/// produced, nor that one is produced.
#[verifier::external_body]
fn bcrypt_hash(password: &str) -> (r: Result<String, bcrypt::BcryptError>)
    ensures
        r matches Ok(h) ==> bcrypt_verdict(password@, h@) == Some(true),
{
    bcrypt::hash(password, bcrypt::DEFAULT_COST)
}

/// `bcrypt::verify`. Trusted: the answer depends on the two arguments alone,
/// and it is an error exactly where the stored value cannot be read as a hash.
/// The digest comparison inside bcrypt is constant-time.
#[verifier::external_body]
fn bcrypt_verify(password: &str, hash: &str) -> (r: Result<bool, bcrypt::BcryptError>)
    ensures
        match r {
            Ok(b) => bcrypt_verdict(password@, hash@) == Some(b),
            Err(_) => bcrypt_verdict(password@, hash@) is None,
        },
{
    bcrypt::verify(password, hash)
}

/// `uuid::Uuid::new_v4` rendered by its `Display`. Trusted: the rendering is
/// the hyphenated form, which is always `ID_LEN` characters long. Which
/// identifier comes back is random. The call panics if the operating system
/// cannot supply random bytes.
#[verifier::external_body]
fn random_id() -> (id: String)
    ensures
        id@.len() == ID_LEN,
{
    uuid::Uuid::new_v4().to_string()
}

/// `chrono::DateTime::from_timestamp` for an instant counted from the epoch,
/// moved to the machine's zone by `with_timezone(&chrono::Local)`, and read as
/// a naive local date and time by `checked_add_offset`. `None` where chrono
/// cannot represent the instant or its local time. Nothing is claimed about
/// the result, which depends on the machine's time zone. chrono panics if the
/// zone data of the machine gives no offset for the instant.
#[verifier::external_body]
fn local_time(secs: i64, nanos: u32) -> (t: Option<Timestamp>) {
    let local = chrono::DateTime::from_timestamp(secs, nanos)?.with_timezone(&chrono::Local);
    let naive = local.naive_utc().checked_add_offset(chrono::Offset::fix(local.offset()))?.and_utc();
    Some(Timestamp { secs: naive.timestamp(), nanos: naive.timestamp_subsec_nanos() })
}

/// Why an account could not be built for a registration.
#[derive(Debug, Clone, Copy, PartialEq, Eq, Structural)]
pub enum RegistrationError {
    /// The hasher broke down.
    Credential(CredentialError),
    /// The clock gave no time to record as the time of creation.
    Clock,
}

/// The reading of the clock as the calendar takes it: a signed count of
/// seconds and the nanoseconds past it. There is none where the clock has no
/// reading, and none where the seconds do not fit a signed count.
pub open spec fn usable_reading_of(time: Option<(u64, u32)>) -> Option<(i64, u32)> {
    match time {
        Some(t) => if t.0 <= i64::MAX {
            Some((t.0 as i64, t.1))
        } else {
            None
        },
        None => None,
    }
}

/// The reading of the clock as the calendar takes it.
pub fn usable_reading(time: Option<(u64, u32)>) -> (reading: Option<(i64, u32)>)
    ensures
        reading == usable_reading_of(time),
{
    match time {
        Some((secs, nanos)) => {
            if secs <= i64::MAX as u64 {
                Some((secs as i64, nanos))
            } else {
                None
            }
        },
        None => None,
    }
}

/// The local time a reading of the clock stands for. There is none without a
/// usable reading; with one, it is what the calendar makes of the reading in
/// the machine's zone, if anything.
pub fn creation_time(time: Option<(u64, u32)>) -> (created: Option<Timestamp>)
    ensures
        usable_reading_of(time) is None ==> created is None,
{
    match usable_reading(time) {
        None => None,
        Some((secs, nanos)) => local_time(secs, nanos),
    }
}

/// What `verify_password` returns once bcrypt has answered.
pub open spec fn verdict_result(verdict: Option<bool>) -> Result<bool, CredentialError> {
    match verdict {
        Some(b) => Ok(b),
        None => Err(CredentialError::Verify),
    }
}

/// That `hash` may be stored for `plaintext`: it verifies against the
/// plaintext, and it is not the plaintext itself.
pub open spec fn hashed(plaintext: Seq<char>, hash: Seq<char>) -> bool {
    bcrypt_verdict(plaintext, hash) == Some(true) && hash != plaintext
}

/// What is stored for `plaintext` once the hasher has answered: the hash it
/// produced, unless it produced none or handed the plaintext back.
pub open spec fn stored_hash_of(plaintext: Seq<char>, produced: Option<String>) -> Result<
    String,
    CredentialError,
> {
    match produced {
        Some(h) => if h@ == plaintext {
            Err(CredentialError::Hash)
        } else {
            Ok(h)
        },
        None => Err(CredentialError::Hash),
    }
}

/// Decides what is stored for `plaintext`, given what the hasher produced.
///
/// A hash is stored as it came. The hasher has broken down if it produced
/// nothing, or if what it produced is the plaintext itself: a stored password
/// is never its own plaintext.
pub fn stored_hash(plaintext: &str, produced: Option<String>) -> (r: Result<
    String,
    CredentialError,
>)
    ensures
        r == stored_hash_of(plaintext@, produced),
{
    match produced {
        Some(h) => {
            if h == plaintext.to_owned() {
                Err(CredentialError::Hash)
            } else {
                Ok(h)
            }
        },
        None => Err(CredentialError::Hash),
    }
}

/// Hashes a plaintext password for storage.
///
/// The plaintext goes to the hasher as it is, and what the hasher produced is
/// stored as [`stored_hash`] decides. Whatever hash is returned verifies
/// against the same plaintext and differs from it. Failure means the hasher
/// itself broke down; which plaintexts it breaks down on is the hasher's to
/// say.
pub fn hash_password(plaintext: &str) -> (r: Result<String, CredentialError>)
    ensures
        exists|produced: Option<String>| r == #[trigger] stored_hash_of(plaintext@, produced),
        r matches Ok(h) ==> hashed(plaintext@, h@),
        r matches Err(e) ==> e == CredentialError::Hash,
{
    let produced = match bcrypt_hash(plaintext) {
        Ok(h) => Some(h),
        Err(_) => None,
    };
    stored_hash(plaintext, produced)
}

/// Checks a plaintext password against a stored hash.
///
/// A mismatch is `Ok(false)`. `Err` is returned exactly when the stored value
/// is not a readable hash.
pub fn verify_password(plaintext: &str, hash: &str) -> (r: Result<bool, CredentialError>)
    ensures
        r == verdict_result(bcrypt_verdict(plaintext@, hash@)),
{
    match bcrypt_verify(plaintext, hash) {
        Ok(b) => Ok(b),
        Err(_) => Err(CredentialError::Verify),
    }
}

impl NewUser {
    /// Puts together an account from parts that are already settled.
    pub fn assemble(
        id: String,
        username: String,
        password_hash: String,
        first_name: String,
        last_name: String,
        email: String,
        timestamp: Timestamp,
    ) -> (u: NewUser)
        ensures
            u@ == (AccountView {
                id: id@,
                username: username@,
                password: password_hash@,
                first_name: first_name@,
                last_name: last_name@,
                email: email@,
                timestamp,
            }),
    {
        NewUser { id, username, password: password_hash, first_name, last_name, email, timestamp }
    }

    /// The account a registration comes to, given what the hasher and the
    /// clock gave: the account of these parts if both gave something, the
    /// hasher's failure if it failed, and the clock's otherwise.
    pub open spec fn settled(
        id: String,
        username: String,
        hashed_password: Result<String, CredentialError>,
        first_name: String,
        last_name: String,
        email: String,
        created: Option<Timestamp>,
    ) -> Result<NewUser, RegistrationError> {
        match hashed_password {
            Err(e) => Err(RegistrationError::Credential(e)),
            Ok(password) => match created {
                None => Err(RegistrationError::Clock),
                Some(timestamp) => Ok(
                    NewUser { id, username, password, first_name, last_name, email, timestamp },
                ),
            },
        }
    }

    /// Decides what a registration comes to, given what the hasher and the
    /// clock gave.
    pub fn settle(
        id: String,
        username: String,
        hashed_password: Result<String, CredentialError>,
        first_name: String,
        last_name: String,
        email: String,
        created: Option<Timestamp>,
    ) -> (r: Result<NewUser, RegistrationError>)
        ensures
            r == NewUser::settled(
                id,
                username,
                hashed_password,
                first_name,
                last_name,
                email,
                created,
            ),
    {
        match hashed_password {
            Err(e) => Err(RegistrationError::Credential(e)),
            Ok(password) => match created {
                None => Err(RegistrationError::Clock),
                Some(timestamp) => Ok(
                    NewUser { id, username, password, first_name, last_name, email, timestamp },
                ),
            },
        }
    }

    /// Builds the account for a registration: a fresh identifier, the hash of
    /// `pass`, and the current local time.
    ///
    /// The identifier and the time are whatever the generator and the clock
    /// give. The stored hash verifies against `pass`, and the other fields are
    /// the arguments unchanged. Fails if the hasher does, or if the clock gives
    /// no time to record.
    pub fn new(
        username: String,
        pass: String,
        first_name: String,
        last_name: String,
        email: String,
    ) -> (r: Result<NewUser, RegistrationError>)
        ensures
            exists|id: String, hashed_password: Result<String, CredentialError>, created: Option<Timestamp>|
                r == #[trigger] NewUser::settled(
                    id,
                    username,
                    hashed_password,
                    first_name,
                    last_name,
                    email,
                    created,
                ),
            r matches Ok(u) ==> {
                &&& u@.id.len() == ID_LEN
                &&& u@.username == username@
                &&& hashed(pass@, u@.password)
                &&& u@.first_name == first_name@
                &&& u@.last_name == last_name@
                &&& u@.email == email@
            },
            r matches Err(e) ==> e == RegistrationError::Credential(CredentialError::Hash) || e
                == RegistrationError::Clock,
    {
        let id = random_id();
        let hashed_password = hash_password(pass.as_str());
        let created = creation_time(system_time());
        NewUser::settle(id, username, hashed_password, first_name, last_name, email, created)
    }

    /// The row the store holds once this account is inserted.
    pub fn into_user(self) -> (u: User)
        ensures
            u@ == self@,
    {
        User {
            id: self.id,
            username: self.username,
            password: self.password,
            first_name: self.first_name,
            last_name: self.last_name,
            email: self.email,
            timestamp: self.timestamp,
        }
    }
}

impl Clone for User {
    fn clone(&self) -> (u: User)
        ensures
            u == *self,
    {
        User {
            id: self.id.clone(),
            username: self.username.clone(),
            password: self.password.clone(),
            first_name: self.first_name.clone(),
            last_name: self.last_name.clone(),
            email: self.email.clone(),
            timestamp: self.timestamp,
        }
    }
}

impl Clone for NewUser {
    fn clone(&self) -> (u: NewUser)
        ensures
            u == *self,
    {
        NewUser {
            id: self.id.clone(),
            username: self.username.clone(),
            password: self.password.clone(),
            first_name: self.first_name.clone(),
            last_name: self.last_name.clone(),
            email: self.email.clone(),
            timestamp: self.timestamp,
        }
    }
}

impl User {
    /// Checks `pass` against this account's stored hash.
    pub fn verify_password(&self, pass: String) -> (r: Result<bool, CredentialError>)
        ensures
            r == verdict_result(bcrypt_verdict(pass@, self@.password)),
    {
        verify_password(pass.as_str(), self.password.as_str())
    }
}

/// A password verifies against the hash that was made of it, whichever salt
/// the hasher drew.
pub proof fn lemma_hashed_password_verifies(plaintext: Seq<char>, hash: Seq<char>)
    requires
        hashed(plaintext, hash),
    ensures
        verdict_result(bcrypt_verdict(plaintext, hash)) == Ok::<bool, CredentialError>(true),
{
}

/// A password that does not match is answered with `false`: it is neither an
/// error nor a failure of the hasher.
pub proof fn lemma_wrong_password_is_an_answer(plaintext: Seq<char>, hash: Seq<char>)
    requires
        bcrypt_verdict(plaintext, hash) == Some(false),
    ensures
        verdict_result(bcrypt_verdict(plaintext, hash)) == Ok::<bool, CredentialError>(false),
{
}

} // verus!
