//! HS256 tokens, as the `jsonwebtoken` crate signs and opens them.
//!
//! A token carries two claims, `sub` and `exp`. Signing and opening are kept
//! free of the clock: opening checks the shape and the signature, and the
//! caller compares `exp` with the time it is given.

use vstd::prelude::*;

verus! {

#[verifier::external_type_specification]
#[verifier::external_body]
pub struct ExJwtError(jsonwebtoken::errors::Error);

/// What opening a token yields, before its expiry is looked at.
#[derive(Debug, PartialEq, Eq)]
pub enum Opened {
    /// Shape and signature are good. A claim is `None` where the payload lacks
    /// it or holds it in another type than a string (`sub`) or a non-negative
    /// integer (`exp`).
    Payload { sub: Option<String>, exp: Option<u64> },
    /// The signature does not belong to the token under this key.
    BadSignature,
    /// The text is not a token this service could have issued.
    Unreadable,
}

/// Mathematical value of an [`Opened`].
pub enum OpenedView {
    Payload { sub: Option<Seq<char>>, exp: Option<u64> },
    BadSignature,
    Unreadable,
}

impl View for Opened {
    type V = OpenedView;

    open spec fn view(&self) -> OpenedView {
        match *self {
            Opened::Payload { sub, exp } => OpenedView::Payload {
                sub: match sub {
                    Some(s) => Some(s@),
                    None => None,
                },
                exp,
            },
            Opened::BadSignature => OpenedView::BadSignature,
            Opened::Unreadable => OpenedView::Unreadable,
        }
    }
}

/// The token `jsonwebtoken::encode` produces for the claims `sub` and `exp`
/// under the default header and the secret `key`.
pub uninterp spec fn hs256_token(sub: Seq<char>, exp: usize, key: Seq<u8>) -> Seq<char>;

/// What `jsonwebtoken::decode` makes of `token` under the secret `key`, with
/// HS256 as the only algorithm and the expiry check switched off.
pub uninterp spec fn hs256_opened(token: Seq<char>, key: Seq<u8>) -> OpenedView;

/// `jsonwebtoken::encode` with `Header::default()` (HS256), the claims
/// `{sub, exp}` as a JSON object, and `EncodingKey::from_secret(key)`.
///
/// Trusted: the result depends on the arguments alone; the call cannot fail,
/// because the header's algorithm and the key are both of the HMAC family and
/// a JSON object of a string and an integer always serialises; and opening the
/// token under the same key gives back the two claims.
#[verifier::external_body]
pub(crate) fn sign_hs256(sub: &str, exp: usize, key: &[u8]) -> (r: Result<String, jsonwebtoken::errors::Error>)
    ensures
        r is Ok,
        r matches Ok(t) ==> t@ == hs256_token(sub@, exp, key@),
        r matches Ok(t) ==> hs256_opened(t@, key@) == (OpenedView::Payload {
            sub: Some(sub@),
            exp: Some(exp as u64),
        }),
{
    let mut claims = serde_json::Map::new();
    claims.insert("sub".to_string(), serde_json::Value::from(sub));
    claims.insert("exp".to_string(), serde_json::Value::from(exp));
    let key = jsonwebtoken::EncodingKey::from_secret(key);
    jsonwebtoken::encode(&jsonwebtoken::Header::default(), &claims, &key)
}

/// `jsonwebtoken::decode` with `DecodingKey::from_secret(key)` and
/// `Validation::new(Algorithm::HS256)` whose `validate_exp` is switched off,
/// so that the call never reads the clock.
///
/// Trusted: the result depends on the arguments alone. An `InvalidSignature`
/// error is told apart from every other error; from a payload that passed, the
/// `sub` and `exp` members are picked as a string and as an unsigned integer.
#[verifier::external_body]
pub(crate) fn open_hs256(token: &str, key: &[u8]) -> (r: Opened)
    ensures
        r@ == hs256_opened(token@, key@),
{
    let key = jsonwebtoken::DecodingKey::from_secret(key);
    let mut validation = jsonwebtoken::Validation::new(jsonwebtoken::Algorithm::HS256);
    validation.validate_exp = false;
    match jsonwebtoken::decode::<serde_json::Value>(token, &key, &validation) {
        Ok(data) => Opened::Payload {
            sub: data.claims.get("sub").and_then(|v| v.as_str()).map(|s| s.to_string()),
            exp: data.claims.get("exp").and_then(|v| v.as_u64()),
        },
        Err(e) => match e.kind() {
            jsonwebtoken::errors::ErrorKind::InvalidSignature => Opened::BadSignature,
            _ => Opened::Unreadable,
        },
    }
}

} // verus!
