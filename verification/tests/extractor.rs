use account_service::commons::auth::{
    bearer_token, starts_with, AuthError, AuthRejection, Claims, CredentialHeader, RejectionKind,
    BEARER_PREFIX_LEN,
};

fn text(value: &str) -> CredentialHeader {
    CredentialHeader::Text(value.to_string())
}

#[test]
fn a_missing_header_is_unauthenticated() {
    let rejection = Claims::authenticate_at(CredentialHeader::Missing, b"k", 0).unwrap_err();
    assert_eq!(rejection, AuthRejection::MissingHeader);
    assert_eq!(rejection.kind(), RejectionKind::Unauthenticated);
    assert_eq!(rejection.status(), 401);
    assert_eq!(rejection.message(), "missing Authorization header");
    assert_eq!(
        Claims::from_request_parts(CredentialHeader::Missing),
        Err(AuthRejection::MissingHeader)
    );
}

#[test]
fn a_header_that_is_not_text_is_malformed() {
    let rejection = Claims::authenticate_at(CredentialHeader::NotText, b"k", 0).unwrap_err();
    assert_eq!(rejection, AuthRejection::HeaderNotText);
    assert_eq!(rejection.kind(), RejectionKind::Malformed);
    assert_eq!(rejection.status(), 400);
    assert_eq!(rejection.message(), "invalid Authorization header format");
}

#[test]
fn a_header_without_the_bearer_scheme_is_malformed() {
    for value in ["", "Bearer", "bearer abc", "Basic abc", "Bearerabc", " Bearer abc", "BEARER abc"] {
        let rejection = Claims::authenticate_at(text(value), b"k", 0).unwrap_err();
        assert_eq!(rejection, AuthRejection::NotBearer);
        assert_eq!(rejection.kind(), RejectionKind::Malformed);
        assert_eq!(rejection.status(), 401);
        assert_eq!(rejection.message(), "invalid token format");
    }
}

#[test]
fn a_bearer_token_that_does_not_verify_is_unauthenticated() {
    let rejection = Claims::authenticate_at(text("Bearer garbage"), b"k", 0).unwrap_err();
    assert_eq!(rejection, AuthRejection::InvalidToken(AuthError::Malformed));
    assert_eq!(rejection.kind(), RejectionKind::Unauthenticated);
    assert_eq!(rejection.status(), 401);
    assert_eq!(rejection.message(), "invalid token");
    let empty = Claims::authenticate_at(text("Bearer "), b"k", 0).unwrap_err();
    assert_eq!(empty, AuthRejection::InvalidToken(AuthError::Malformed));
}

#[test]
fn every_failing_token_gets_the_same_status_and_text() {
    let token = Claims::issued_at("user-1".to_string(), 1000).encode_with(b"k");
    let header = format!("Bearer {}", token);
    let expired = Claims::authenticate_at(text(&header), b"k", 4600).unwrap_err();
    let forged = Claims::authenticate_at(text(&header), b"other", 1000).unwrap_err();
    let garbled = Claims::authenticate_at(text("Bearer x.y.z"), b"k", 1000).unwrap_err();
    assert_eq!(expired, AuthRejection::InvalidToken(AuthError::Expired));
    assert_eq!(forged, AuthRejection::InvalidToken(AuthError::BadSignature));
    assert_eq!(garbled, AuthRejection::InvalidToken(AuthError::Malformed));
    for rejection in [expired, forged, garbled] {
        assert_eq!(rejection.status(), 401);
        assert_eq!(rejection.message(), "invalid token");
        assert_eq!(rejection.kind(), RejectionKind::Unauthenticated);
    }
}

#[test]
fn a_valid_bearer_token_yields_its_claims() {
    let token = Claims::issued_at("user-1".to_string(), 1000).encode_with(b"k");
    let header = format!("Bearer {}", token);
    assert_eq!(
        Claims::authenticate_at(text(&header), b"k", 1000),
        Ok(Claims { sub: "user-1".to_string(), exp: 4600 })
    );
}

#[test]
fn the_check_under_the_service_key_accepts_a_fresh_token() {
    let token = Claims::new("user-1".to_string()).encode();
    let claims = Claims::from_request_parts(text(&format!("Bearer {}", token))).unwrap();
    assert_eq!(claims.sub, "user-1");
    let stale = Claims::issued_at("user-1".to_string(), 1000).encode();
    assert_eq!(
        Claims::from_request_parts(text(&format!("Bearer {}", stale))),
        Err(AuthRejection::InvalidToken(AuthError::Expired))
    );
}

#[test]
fn the_token_is_what_follows_the_prefix() {
    assert_eq!(BEARER_PREFIX_LEN, 7);
    assert_eq!(bearer_token("Bearer abc"), Some("abc".to_string()));
    assert_eq!(bearer_token("Bearer "), Some(String::new()));
    assert_eq!(bearer_token("Bearer  abc "), Some(" abc ".to_string()));
    assert_eq!(bearer_token("Bearer Bearer x"), Some("Bearer x".to_string()));
    assert_eq!(bearer_token("Bearer \u{00e9}\u{4e16}"), Some("\u{00e9}\u{4e16}".to_string()));
    assert_eq!(bearer_token("Bearer"), None);
    assert_eq!(bearer_token("bearer abc"), None);
    assert_eq!(bearer_token(""), None);
    assert_eq!(bearer_token("\u{00e9}earer abc"), None);
}

#[test]
fn starts_with_compares_character_by_character() {
    assert!(starts_with("Bearer abc", "Bearer "));
    assert!(starts_with("abc", ""));
    assert!(starts_with("", ""));
    assert!(starts_with("abc", "abc"));
    assert!(!starts_with("ab", "abc"));
    assert!(!starts_with("abd", "abc"));
    assert!(!starts_with("", "a"));
    assert!(starts_with("\u{4e16}\u{754c}x", "\u{4e16}\u{754c}"));
    assert!(!starts_with("\u{4e16}x", "\u{4e16}\u{754c}"));
}

#[test]
fn without_a_reading_of_the_clock_every_request_is_turned_away() {
    let token = Claims::issued_at("user-1".to_string(), 1000).encode_with(b"k");
    let header = format!("Bearer {}", token);
    assert_eq!(
        Claims::authenticate_by_clock(text(&header), b"k", Some(1000)),
        Ok(Claims { sub: "user-1".to_string(), exp: 4600 })
    );
    assert_eq!(
        Claims::authenticate_by_clock(text(&header), b"k", None),
        Err(AuthRejection::InvalidToken(AuthError::Expired))
    );
    assert_eq!(
        Claims::authenticate_by_clock(CredentialHeader::Missing, b"k", None),
        Err(AuthRejection::MissingHeader)
    );
    assert_eq!(
        Claims::authenticate_by_clock(text("Basic abc"), b"k", None),
        Err(AuthRejection::NotBearer)
    );
}
