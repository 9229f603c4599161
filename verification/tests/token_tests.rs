//! The token service: round trips, expiry, tampering, and login.

use payme::auth::{login, AuthenticationError, AuthenticationService, LoginRequest};
use payme::auth_gate::AuthMiddleware;

#[test]
fn the_middleware_extracts_and_validates_a_bearer_token() {
    let service = AuthenticationService::new(b"mw-secret".to_vec());
    let token = service
        .create_token("user123".to_string(), "admin".to_string())
        .unwrap();
    let gate = AuthMiddleware::new(service);

    assert_eq!(
        gate.authorize(None).unwrap_err(),
        AuthenticationError::MissingToken
    );
    let bad_scheme = "Token abc".to_string();
    assert_eq!(
        gate.authorize(Some(&bad_scheme)).unwrap_err(),
        AuthenticationError::InvalidToken
    );
    let header = format!("Bearer {token}");
    let user = gate.authorize(Some(&header)).expect("a fresh token is accepted");
    assert_eq!(user.0.sub, "user123");
    assert_eq!(user.0.role, "admin");
}

#[test]
fn issued_token_validates_to_the_same_claims_before_expiry() {
    let service = AuthenticationService::new(b"top-secret".to_vec());
    let token = service
        .create_token_at("alice".to_string(), "admin".to_string(), 1_000)
        .unwrap();

    for at in [1_000, 2_000, 1_000 + 86_399, 1_000 + 86_400] {
        let claims = service
            .validate_token_at(&token, at)
            .expect("an unexpired token validates");
        assert_eq!(claims.sub, "alice");
        assert_eq!(claims.role, "admin");
        assert_eq!(claims.exp, 1_000 + 86_400);
    }
}

#[test]
fn issued_token_fails_validation_strictly_after_expiry() {
    let service = AuthenticationService::new(b"top-secret".to_vec());
    let token = service
        .create_token_at("alice".to_string(), "admin".to_string(), 1_000)
        .unwrap();

    let late = service.validate_token_at(&token, 1_000 + 86_401);
    assert_eq!(late.unwrap_err(), AuthenticationError::InvalidToken);
}

#[test]
fn tampered_token_fails_validation() {
    let service = AuthenticationService::new(b"top-secret".to_vec());
    let token = service
        .create_token_at("alice".to_string(), "admin".to_string(), 1_000)
        .unwrap();

    // Damage the signature.
    let mut bad_sig = token.clone();
    let last = bad_sig.pop().unwrap();
    bad_sig.push(if last == 'A' { 'B' } else { 'A' });
    assert!(service.validate_token_at(&bad_sig, 1_000).is_err());

    // Damage the payload (the subject starts right after the three
    // length fields).
    let mut bad_payload: Vec<char> = token.chars().collect();
    bad_payload[48] = if bad_payload[48] == 'x' { 'y' } else { 'x' };
    let bad_payload: String = bad_payload.into_iter().collect();
    assert!(service.validate_token_at(&bad_payload, 1_000).is_err());
}

#[test]
fn token_under_another_secret_fails_validation() {
    let issuer = AuthenticationService::new(b"top-secret".to_vec());
    let other = AuthenticationService::new(b"other-secret".to_vec());
    let token = issuer
        .create_token_at("alice".to_string(), "admin".to_string(), 1_000)
        .unwrap();

    assert!(other.validate_token_at(&token, 1_000).is_err());
    assert!(issuer.validate_token_at(&token, 1_000).is_ok());
}

#[test]
fn garbage_tokens_fail_validation() {
    let service = AuthenticationService::new(b"top-secret".to_vec());
    for bad in ["", "short", "no-dot-in-here-at-all-but-long-enough-to-pass-nothing"] {
        assert_eq!(
            service.validate_token_at(bad, 0).unwrap_err(),
            AuthenticationError::InvalidToken
        );
    }
}

#[test]
fn create_token_and_validate_token_agree_on_the_clock() {
    let service = AuthenticationService::new(b"clock-secret".to_vec());
    let token = service
        .create_token("user123".to_string(), "admin".to_string())
        .unwrap();
    let claims = service
        .validate_token(&token)
        .expect("a token issued a moment ago validates");
    assert_eq!(claims.sub, "user123");
    assert_eq!(claims.role, "admin");
}

#[test]
fn login_issues_a_token_for_the_fixed_identity() {
    let service = AuthenticationService::new(b"login-secret".to_vec());
    let accepted = login(
        &service,
        &LoginRequest { username: "admin".to_string(), password: "password".to_string() },
    )
    .expect("the fixed credentials log in");
    let claims = service.validate_token(&accepted.token).unwrap();
    assert_eq!(claims.sub, "user123");
    assert_eq!(claims.role, "admin");
}

#[test]
fn login_rejects_wrong_credentials() {
    let service = AuthenticationService::new(b"login-secret".to_vec());
    let denied = login(
        &service,
        &LoginRequest { username: "admin".to_string(), password: "letmein".to_string() },
    );
    assert_eq!(denied.unwrap_err(), AuthenticationError::InvalidCredentials);
}
