use hotel_booking::enums::AuthError;
use hotel_booking::middleware::auth_middleware;
use hotel_booking::utils::{create_jwt_token, extract_user_from_token};

const SECRET: &str = "test-secret-key";
const HOURS: i64 = 24;
const NOW: i64 = 1_700_000_000;

fn mint(user_id: i32, email: &str) -> String {
    create_jwt_token(user_id, String::from(email), SECRET, HOURS, NOW)
        .expect("token issuance failed")
}

#[test]
fn test_token_round_trip() {
    let token = mint(42, "alice@example.com");
    let claims = extract_user_from_token(&token, SECRET, NOW).expect("fresh token must validate");
    assert_eq!(claims.sub, 42);
    assert_eq!(claims.email, "alice@example.com");
    assert_eq!(claims.iat, NOW);
    assert_eq!(claims.exp, NOW + HOURS * 3600);
}

#[test]
fn test_token_validation_window() {
    let token = mint(7, "bob@example.com");
    let expiry = NOW + HOURS * 3600;
    assert!(extract_user_from_token(&token, SECRET, NOW).is_ok());
    assert!(extract_user_from_token(&token, SECRET, expiry - 1).is_ok());
    assert!(extract_user_from_token(&token, SECRET, expiry).is_err());
    assert!(extract_user_from_token(&token, SECRET, expiry + 1).is_err());
}

#[test]
fn test_token_wrong_secret_rejected() {
    let token = mint(7, "bob@example.com");
    let r = extract_user_from_token(&token, "another-secret", NOW);
    assert!(matches!(r, Err(AuthError::InvalidToken)));
}

#[test]
fn test_token_tampering_rejected() {
    let token = mint(9, "carol@example.com");
    let bytes = token.as_bytes();
    for i in 0..bytes.len() {
        let mut flipped = bytes.to_vec();
        flipped[i] = if flipped[i] == b'A' { b'B' } else { b'A' };
        if flipped == bytes {
            continue;
        }
        let tampered = String::from_utf8(flipped).unwrap();
        let r = extract_user_from_token(&tampered, SECRET, NOW);
        assert!(
            matches!(r, Err(AuthError::InvalidToken)),
            "tampered byte {} validated",
            i
        );
    }
}

#[test]
fn test_garbage_token_rejected() {
    let r = extract_user_from_token("invalid_token_here", SECRET, NOW);
    assert!(matches!(r, Err(AuthError::InvalidToken)));
}

#[test]
fn test_gate_missing_header() {
    let r = auth_middleware(None, SECRET, NOW);
    let e = r.expect_err("gate must reject without a header");
    assert!(matches!(e, AuthError::MissingToken));
    assert_eq!(e.status_code(), 401);
    assert_eq!(e.message(), "Missing authorization token");
}

#[test]
fn test_gate_malformed_header() {
    let r = auth_middleware(Some("invalid_header"), SECRET, NOW);
    assert!(matches!(r, Err(AuthError::MissingToken)));
}

#[test]
fn test_gate_invalid_bearer_token() {
    let r = auth_middleware(Some("Bearer invalid_token"), SECRET, NOW);
    let e = r.expect_err("gate must reject a garbage token");
    assert!(matches!(e, AuthError::InvalidToken));
    assert_eq!(e.status_code(), 401);
    assert_eq!(e.message(), "Invalid token");
}

#[test]
fn test_gate_valid_token_yields_identity() {
    let token = mint(1234, "dave@example.com");
    let header = format!("Bearer {}", token);
    let claims = auth_middleware(Some(&header), SECRET, NOW).expect("valid token must pass");
    assert_eq!(claims.sub, 1234);
    assert_eq!(claims.email, "dave@example.com");
}

#[test]
fn test_gate_expired_token_rejected() {
    let token = mint(5, "eve@example.com");
    let header = format!("Bearer {}", token);
    let r = auth_middleware(Some(&header), SECRET, NOW + HOURS * 3600);
    assert!(matches!(r, Err(AuthError::InvalidToken)));
}
