//! Token claims, the token service, and the request-time authentication check.
//!
//! A token is stateless: it is valid exactly when its signature matches the
//! service key and its expiry lies strictly after the instant of the check.
//! The check never consults the store, so a token keeps authenticating for as
//! long as it is unexpired, whatever has happened to the account since.

use crate::commons::clock::{clock_seconds, now_seconds};
use crate::commons::jwt::{hs256_opened, hs256_token, open_hs256, sign_hs256, Opened, OpenedView};
use crate::commons::schema::{
    Payload,
    PayloadView,
    Reply,
    ReplyView,
    STATUS_BAD_REQUEST,
    STATUS_OK,
    STATUS_UNAUTHORIZED,
};
use vstd::prelude::*;

verus! {

/// Seconds for which an issued token stays valid.
pub const TOKEN_TTL_SECS: u64 = 3600;

/// Number of characters in the scheme prefix of a credential header.
pub const BEARER_PREFIX_LEN: usize = 7;

/// The payload of a token: who it speaks for, and until when.
#[derive(Debug, PartialEq, Eq)]
pub struct Claims {
    /// Identifier of the account the token was issued to.
    pub sub: String,
    /// Seconds since the epoch at which the token stops being valid.
    pub exp: usize,
}

/// Mathematical value of a [`Claims`].
pub struct ClaimsView {
    pub sub: Seq<char>,
    pub exp: usize,
}

impl View for Claims {
    type V = ClaimsView;

    open spec fn view(&self) -> ClaimsView {
        ClaimsView { sub: self.sub@, exp: self.exp }
    }
}

/// Why a token was turned down. Each is final for the request at hand.
#[derive(Debug, Clone, Copy, PartialEq, Eq, Structural)]
pub enum AuthError {
    /// The text is not a token of this service, or its claims lack a part.
    Malformed,
    /// The signature does not match the service key.
    BadSignature,
    /// The expiry is not after the instant of the check.
    Expired,
}

/// The credential header of a request, as the transport found it.
#[derive(Debug, PartialEq, Eq)]
pub enum CredentialHeader {
    /// The request carries no credential header.
    Missing,
    /// The header is there but its value is not text.
    NotText,
    /// The header's value.
    Text(String),
}

/// The two ways a request is turned away before its operation runs.
#[derive(Debug, Clone, Copy, PartialEq, Eq, Structural)]
pub enum RejectionKind {
    /// No usable credential was presented.
    Unauthenticated,
    /// A credential header was presented in the wrong shape.
    Malformed,
}

/// Why the authentication check turned a request away.
#[derive(Debug, Clone, Copy, PartialEq, Eq, Structural)]
pub enum AuthRejection {
    /// No credential header.
    MissingHeader,
    /// A credential header whose value is not text.
    HeaderNotText,
    /// A credential header that does not read `Bearer <token>`.
    NotBearer,
    /// A token that did not verify. The cause is for the server's log; what the
    /// caller is told does not depend on it.
    InvalidToken(AuthError),
}

/// The instant at which a token issued at `now` stops being valid, held at the
/// largest representable instant where the sum does not fit.
pub open spec fn expiry_of(now: u64) -> usize {
    if now + TOKEN_TTL_SECS <= usize::MAX {
        (now + TOKEN_TTL_SECS) as usize
    } else {
        usize::MAX
    }
}

/// The signing key of the service, as bytes.
pub open spec fn service_key() -> Seq<u8> {
    vstd::utf8::encode_utf8("bach"@)
}

/// The scheme prefix of a credential header: `Bearer` and one space.
pub open spec fn bearer_prefix() -> Seq<char> {
    seq!['B', 'e', 'a', 'r', 'e', 'r', ' ']
}

/// The token inside a credential header's value, if the value has the shape
/// `Bearer <token>`.
pub open spec fn bearer_token_of(value: Seq<char>) -> Option<Seq<char>> {
    if value.len() >= BEARER_PREFIX_LEN && value.subrange(0, BEARER_PREFIX_LEN as int)
        == bearer_prefix() {
        Some(value.skip(BEARER_PREFIX_LEN as int))
    } else {
        None
    }
}

/// The verdict on an opened token at the instant `now`: the signature decides
/// first, then the presence of both claims, then the expiry, which must lie
/// strictly after `now`.
pub open spec fn token_verdict(opened: OpenedView, now: u64) -> Result<ClaimsView, AuthError> {
    match opened {
        OpenedView::Unreadable => Err(AuthError::Malformed),
        OpenedView::BadSignature => Err(AuthError::BadSignature),
        OpenedView::Payload { sub: Some(sub), exp: Some(exp) } => {
            if exp > usize::MAX {
                Err(AuthError::Malformed)
            } else if exp <= now {
                Err(AuthError::Expired)
            } else {
                Ok(ClaimsView { sub, exp: exp as usize })
            }
        },
        OpenedView::Payload { .. } => Err(AuthError::Malformed),
    }
}

/// The verdict on a request's credential header at the instant `now`, with
/// tokens opened under `key`.
pub open spec fn authentication(header: CredentialHeader, key: Seq<u8>, now: u64) -> Result<
    ClaimsView,
    AuthRejection,
> {
    match header {
        CredentialHeader::Missing => Err(AuthRejection::MissingHeader),
        CredentialHeader::NotText => Err(AuthRejection::HeaderNotText),
        CredentialHeader::Text(value) => match bearer_token_of(value@) {
            None => Err(AuthRejection::NotBearer),
            Some(token) => match token_verdict(hs256_opened(token, key), now) {
                Ok(claims) => Ok(claims),
                Err(cause) => Err(AuthRejection::InvalidToken(cause)),
            },
        },
    }
}

/// The instant a token is checked against, by a clock reading. A clock
/// without a reading counts as standing at the end of time: the check cannot
/// tell that any expiry still lies ahead, so it accepts no token.
pub open spec fn instant_of_check(clock: Option<u64>) -> u64 {
    match clock {
        Some(now) => now,
        None => u64::MAX,
    }
}

/// Mathematical value of the outcome of a verification.
pub open spec fn verdict_view<E>(r: Result<Claims, E>) -> Result<ClaimsView, E> {
    match r {
        Ok(claims) => Ok(claims@),
        Err(e) => Err(e),
    }
}

/// That `token` is what signing `claims` under `key` gives: it is the token of
/// those claims, and it opens to them under the same key.
pub open spec fn issued(claims: ClaimsView, token: Seq<char>, key: Seq<u8>) -> bool {
    &&& token == hs256_token(claims.sub, claims.exp, key)
    &&& hs256_opened(token, key) == (OpenedView::Payload {
        sub: Some(claims.sub),
        exp: Some(claims.exp as u64),
    })
}

/// Whether `value` begins with `prefix`, character by character.
pub fn starts_with(value: &str, prefix: &str) -> (b: bool)
    ensures
        b == (value@.len() >= prefix@.len() && value@.subrange(0, prefix@.len() as int)
            == prefix@),
{
    let n = value.unicode_len();
    let m = prefix.unicode_len();
    if n < m {
        return false;
    }
    let mut i: usize = 0;
    while i < m
        invariant
            i <= m,
            m <= n,
            n == value@.len(),
            m == prefix@.len(),
            forall|j: int| 0 <= j < i ==> value@[j] == prefix@[j],
        decreases m - i,
    {
        if value.get_char(i) != prefix.get_char(i) {
            assert(value@.subrange(0, m as int)[i as int] != prefix@[i as int]);
            return false;
        }
        i += 1;
    }
    assert(value@.subrange(0, m as int) =~= prefix@);
    true
}

/// The token inside a credential header's value, or `None` where the value
/// does not read `Bearer <token>`. The token may be empty.
pub fn bearer_token(value: &str) -> (r: Option<String>)
    ensures
        match r {
            Some(token) => bearer_token_of(value@) == Some(token@),
            None => bearer_token_of(value@) is None,
        },
{
    proof {
        reveal_strlit("Bearer ");
        assert("Bearer "@ =~= bearer_prefix());
    }
    if starts_with(value, "Bearer ") {
        let n = value.unicode_len();
        let token = value.substring_char(BEARER_PREFIX_LEN, n);
        assert(token@ =~= value@.skip(BEARER_PREFIX_LEN as int));
        Some(token.to_owned())
    } else {
        None
    }
}

impl AuthRejection {
    /// Which of the two kinds of rejection this is.
    pub open spec fn spec_kind(&self) -> RejectionKind {
        match *self {
            AuthRejection::MissingHeader => RejectionKind::Unauthenticated,
            AuthRejection::HeaderNotText => RejectionKind::Malformed,
            AuthRejection::NotBearer => RejectionKind::Malformed,
            AuthRejection::InvalidToken(_) => RejectionKind::Unauthenticated,
        }
    }

    /// The status the rejection is sent under.
    pub open spec fn spec_status(&self) -> u16 {
        match *self {
            AuthRejection::HeaderNotText => STATUS_BAD_REQUEST,
            _ => STATUS_UNAUTHORIZED,
        }
    }

    /// The text the caller is shown.
    pub open spec fn spec_message(&self) -> Seq<char> {
        match *self {
            AuthRejection::MissingHeader => "missing Authorization header"@,
            AuthRejection::HeaderNotText => "invalid Authorization header format"@,
            AuthRejection::NotBearer => "invalid token format"@,
            AuthRejection::InvalidToken(_) => "invalid token"@,
        }
    }

    /// Which of the two kinds of rejection this is.
    #[verifier::when_used_as_spec(spec_kind)]
    pub fn kind(&self) -> (k: RejectionKind)
        ensures
            k == self.spec_kind(),
    {
        match self {
            AuthRejection::MissingHeader => RejectionKind::Unauthenticated,
            AuthRejection::HeaderNotText => RejectionKind::Malformed,
            AuthRejection::NotBearer => RejectionKind::Malformed,
            AuthRejection::InvalidToken(_) => RejectionKind::Unauthenticated,
        }
    }

    /// The status the rejection is sent under.
    #[verifier::when_used_as_spec(spec_status)]
    pub fn status(&self) -> (s: u16)
        ensures
            s == self.spec_status(),
    {
        match self {
            AuthRejection::HeaderNotText => STATUS_BAD_REQUEST,
            _ => STATUS_UNAUTHORIZED,
        }
    }

    /// The text the caller is shown. Every token that fails to verify gets the
    /// same text, whatever the cause.
    pub fn message(&self) -> (m: &'static str)
        ensures
            m@ == self.spec_message(),
    {
        match self {
            AuthRejection::MissingHeader => "missing Authorization header",
            AuthRejection::HeaderNotText => "invalid Authorization header format",
            AuthRejection::NotBearer => "invalid token format",
            AuthRejection::InvalidToken(_) => "invalid token",
        }
    }
}

impl Claims {
    /// The signing key of the service.
    pub fn get_key() -> (key: String)
        ensures
            key@ == "bach"@,
    {
        "bach".to_owned()
    }

    /// The expiry of a token issued at `now`.
    pub fn expiry_at(now: u64) -> (exp: usize)
        ensures
            exp == expiry_of(now),
    {
        match now.checked_add(TOKEN_TTL_SECS) {
            Some(sum) => if sum <= usize::MAX as u64 {
                sum as usize
            } else {
                usize::MAX
            },
            None => usize::MAX,
        }
    }

    /// The expiry of a token issued at this moment, by the system clock.
    pub fn get_exp() -> (exp: usize)
        ensures
            exists|now: u64| exp == #[trigger] expiry_of(now),
    {
        let now = now_seconds();
        Claims::expiry_at(now)
    }

    /// Claims for `user_id` that expire one time-to-live after `now`.
    pub fn issued_at(user_id: String, now: u64) -> (claims: Claims)
        ensures
            claims@ == (ClaimsView { sub: user_id@, exp: expiry_of(now) }),
    {
        Claims { sub: user_id, exp: Claims::expiry_at(now) }
    }

    /// Claims for `user_id` that expire one time-to-live from this moment, by
    /// the system clock.
    pub fn new(user_id: String) -> (claims: Claims)
        ensures
            claims@.sub == user_id@,
            exists|now: u64| claims@.exp == #[trigger] expiry_of(now),
    {
        Claims { sub: user_id, exp: Claims::get_exp() }
    }

    /// Signs the claims under `key` and returns the token.
    ///
    /// The token opens to these claims under the same key, so it verifies at
    /// every instant before the expiry.
    pub fn encode_with(self, key: &[u8]) -> (token: String)
        ensures
            issued(self@, token@, key@),
            forall|now: u64|
                now < self@.exp ==> #[trigger] token_verdict(hs256_opened(token@, key@), now)
                    == Ok::<ClaimsView, AuthError>(self@),
    {
        match sign_hs256(self.sub.as_str(), self.exp, key) {
            Ok(token) => token,
            Err(_) => unreached(),
        }
    }

    /// Signs the claims under the service key and returns the token.
    pub fn encode(self) -> (token: String)
        ensures
            issued(self@, token@, service_key()),
            forall|now: u64|
                now < self@.exp ==> #[trigger] token_verdict(
                    hs256_opened(token@, service_key()),
                    now,
                ) == Ok::<ClaimsView, AuthError>(self@),
    {
        let key = Claims::get_key();
        self.encode_with(key.as_str().as_bytes())
    }

    /// The reply that shows these claims to the caller.
    pub fn into_response(self) -> (reply: Reply)
        ensures
            reply@ == (ReplyView {
                status: STATUS_OK,
                body: PayloadView::Claims(self@),
                authorization: None,
            }),
    {
        Reply { status: STATUS_OK, body: Payload::Claims(self), authorization: None }
    }

    /// The verdict on a token that has been opened, at the instant `now`.
    pub fn from_opened(opened: Opened, now: u64) -> (r: Result<Claims, AuthError>)
        ensures
            verdict_view(r) == token_verdict(opened@, now),
    {
        match opened {
            Opened::Unreadable => Err(AuthError::Malformed),
            Opened::BadSignature => Err(AuthError::BadSignature),
            Opened::Payload { sub: Some(sub), exp: Some(exp) } => {
                if exp > usize::MAX as u64 {
                    Err(AuthError::Malformed)
                } else if exp <= now {
                    Err(AuthError::Expired)
                } else {
                    Ok(Claims { sub, exp: exp as usize })
                }
            },
            Opened::Payload { .. } => Err(AuthError::Malformed),
        }
    }

    /// Verifies `token` under `key` at the instant `now`.
    pub fn verify_at(token: &str, key: &[u8], now: u64) -> (r: Result<Claims, AuthError>)
        ensures
            verdict_view(r) == token_verdict(hs256_opened(token@, key@), now),
    {
        Claims::from_opened(open_hs256(token, key), now)
    }

    /// The instant a token is checked against, by a clock reading.
    pub fn check_instant(clock: Option<u64>) -> (now: u64)
        ensures
            now == instant_of_check(clock),
    {
        match clock {
            Some(now) => now,
            None => u64::MAX,
        }
    }

    /// Verifies `token` under `key` by a reading of the clock. With no reading
    /// the token is refused: for its signature or its shape if they are bad,
    /// and as expired otherwise.
    pub fn verify_by_clock(token: &str, key: &[u8], clock: Option<u64>) -> (r: Result<
        Claims,
        AuthError,
    >)
        ensures
            verdict_view(r) == token_verdict(hs256_opened(token@, key@), instant_of_check(clock)),
            clock is None ==> r is Err,
    {
        Claims::verify_at(token, key, Claims::check_instant(clock))
    }

    /// Verifies `token` under the service key at this moment, by the system
    /// clock. If the clock has no reading, the token is refused.
    pub fn from_token(token: String) -> (r: Result<Claims, AuthError>)
        ensures
            exists|clock: Option<u64>|
                verdict_view(r) == token_verdict(
                    hs256_opened(token@, service_key()),
                    #[trigger] instant_of_check(clock),
                ) && (clock is None ==> r is Err),
    {
        let key = Claims::get_key();
        let clock = clock_seconds();
        let r = Claims::verify_by_clock(token.as_str(), key.as_str().as_bytes(), clock);
        assert(verdict_view(r) == token_verdict(
            hs256_opened(token@, service_key()),
            instant_of_check(clock),
        ));
        r
    }

    /// The authentication check at the instant `now`, with tokens opened under
    /// `key`: the claims of the bearer token in `header`, or the reason the
    /// request is turned away.
    pub fn authenticate_at(header: CredentialHeader, key: &[u8], now: u64) -> (r: Result<
        Claims,
        AuthRejection,
    >)
        ensures
            verdict_view(r) == authentication(header, key@, now),
    {
        match header {
            CredentialHeader::Missing => Err(AuthRejection::MissingHeader),
            CredentialHeader::NotText => Err(AuthRejection::HeaderNotText),
            CredentialHeader::Text(value) => match bearer_token(value.as_str()) {
                None => Err(AuthRejection::NotBearer),
                Some(token) => match Claims::verify_at(token.as_str(), key, now) {
                    Ok(claims) => Ok(claims),
                    Err(cause) => Err(AuthRejection::InvalidToken(cause)),
                },
            },
        }
    }

    /// The authentication check by a reading of the clock, with tokens opened
    /// under `key`. With no reading every request is turned away.
    pub fn authenticate_by_clock(header: CredentialHeader, key: &[u8], clock: Option<u64>) -> (r:
        Result<Claims, AuthRejection>)
        ensures
            verdict_view(r) == authentication(header, key@, instant_of_check(clock)),
            clock is None ==> r is Err,
    {
        Claims::authenticate_at(header, key, Claims::check_instant(clock))
    }

    /// The authentication check for a protected operation, under the service
    /// key and at this moment by the system clock. It looks at the header and
    /// the token only; the store is not consulted. If the clock has no
    /// reading, the request is turned away.
    pub fn from_request_parts(header: CredentialHeader) -> (r: Result<Claims, AuthRejection>)
        ensures
            exists|clock: Option<u64>|
                verdict_view(r) == authentication(
                    header,
                    service_key(),
                    #[trigger] instant_of_check(clock),
                ) && (clock is None ==> r is Err),
    {
        let key = Claims::get_key();
        let clock = clock_seconds();
        let ghost asked = header;
        let r = Claims::authenticate_by_clock(header, key.as_str().as_bytes(), clock);
        assert(verdict_view(r) == authentication(asked, service_key(), instant_of_check(clock)));
        r
    }
}

/// A token verifies, under the key it was signed with and at every instant
/// before its expiry, and the claims it yields are the ones it was issued for.
pub proof fn lemma_issued_token_verifies(
    claims: ClaimsView,
    token: Seq<char>,
    key: Seq<u8>,
    now: u64,
)
    requires
        issued(claims, token, key),
        now < claims.exp,
    ensures
        token_verdict(hs256_opened(token, key), now) == Ok::<ClaimsView, AuthError>(claims),
{
}

/// A token issued for `subject` at `issued_at` verifies at that very instant,
/// and the subject it yields is `subject`.
pub proof fn lemma_fresh_token_yields_subject(
    subject: Seq<char>,
    token: Seq<char>,
    key: Seq<u8>,
    issued_at: u64,
)
    requires
        issued(ClaimsView { sub: subject, exp: expiry_of(issued_at) }, token, key),
        issued_at < usize::MAX,
    ensures
        token_verdict(hs256_opened(token, key), issued_at) matches Ok(claims) && claims.sub
            == subject,
{
}

/// From its expiry on, a token is turned down as expired.
pub proof fn lemma_token_expires(claims: ClaimsView, token: Seq<char>, key: Seq<u8>, now: u64)
    requires
        issued(claims, token, key),
        now >= claims.exp,
    ensures
        token_verdict(hs256_opened(token, key), now) == Err::<ClaimsView, AuthError>(
            AuthError::Expired,
        ),
{
}

/// Whatever makes a token fail, the caller is shown one and the same status and
/// text.
pub proof fn lemma_token_failures_look_alike(a: AuthError, b: AuthError)
    ensures
        AuthRejection::InvalidToken(a).spec_status() == AuthRejection::InvalidToken(
            b,
        ).spec_status(),
        AuthRejection::InvalidToken(a).spec_message() == AuthRejection::InvalidToken(
            b,
        ).spec_message(),
{
}

/// A token issued for `subject` at `issued_at` verifies at every instant of
/// the hour that follows, and yields that subject and the expiry one hour
/// after the issue.
pub proof fn lemma_token_verifies_within_its_hour(
    subject: Seq<char>,
    token: Seq<char>,
    key: Seq<u8>,
    issued_at: u64,
    now: u64,
)
    requires
        issued(ClaimsView { sub: subject, exp: expiry_of(issued_at) }, token, key),
        issued_at + TOKEN_TTL_SECS <= usize::MAX,
        issued_at <= now < issued_at + TOKEN_TTL_SECS,
    ensures
        token_verdict(hs256_opened(token, key), now) == Ok::<ClaimsView, AuthError>(
            ClaimsView { sub: subject, exp: (issued_at + TOKEN_TTL_SECS) as usize },
        ),
{
}

/// Without a reading of the clock no token is accepted, whatever it holds.
pub proof fn lemma_no_reading_no_token(opened: OpenedView)
    ensures
        token_verdict(opened, instant_of_check(None)) is Err,
{
}

} // verus!
