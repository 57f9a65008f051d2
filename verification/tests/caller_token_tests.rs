use llm_security_core::caller_token::CallerToken;
use llm_security_core::error::GatewayError;

#[test]
fn test_create_and_validate() {
    let token = CallerToken::create("test-service", "my-secret-key").unwrap();
    assert_eq!(token.caller_id, "test-service");
    assert!(!token.signature.is_empty());
    assert!(!token.issued_at.is_empty());

    // Should validate successfully
    token.validate("my-secret-key", None).unwrap();
}

#[test]
fn test_invalid_signature() {
    let mut token = CallerToken::create("test-service", "my-secret-key").unwrap();
    token.signature = "deadbeef".repeat(8); // Wrong signature

    let result = token.validate("my-secret-key", None);
    assert!(result.is_err());
    assert!(matches!(result.unwrap_err(), GatewayError::InvalidCallerToken(_)));
}

#[test]
fn test_wrong_secret() {
    let token = CallerToken::create("test-service", "my-secret-key").unwrap();

    let result = token.validate("wrong-secret", None);
    assert!(result.is_err());
}

#[test]
fn test_empty_caller_id() {
    let result = CallerToken::create("", "my-secret-key");
    assert!(result.is_err());
}

#[test]
fn test_empty_secret() {
    let result = CallerToken::create("test-service", "");
    assert!(result.is_err());
}

#[test]
fn test_expired_token() {
    // Issue the token 10 minutes in the past, signed for that timestamp.
    let old_time = chrono::Utc::now() - chrono::Duration::seconds(600);
    let token =
        CallerToken::create_at("test-service", "my-secret-key", &old_time.to_rfc3339()).unwrap();

    let result = token.validate("my-secret-key", Some(300));
    assert!(result.is_err());
    assert!(matches!(result.unwrap_err(), GatewayError::ExpiredCallerToken(_)));
}

#[test]
fn test_expired_token_longer_ttl_accepted() {
    // The same 600-second-old token is fine under a 900-second TTL.
    let old_time = chrono::Utc::now() - chrono::Duration::seconds(600);
    let token =
        CallerToken::create_at("test-service", "my-secret-key", &old_time.to_rfc3339()).unwrap();

    token.validate("my-secret-key", Some(900)).unwrap();
}

#[test]
fn test_expired_message_reports_age_and_ttl() {
    let old_time = chrono::Utc::now() - chrono::Duration::seconds(600);
    let token =
        CallerToken::create_at("test-service", "my-secret-key", &old_time.to_rfc3339()).unwrap();

    match token.validate("my-secret-key", Some(300)) {
        Err(GatewayError::ExpiredCallerToken(msg)) => {
            assert!(msg.starts_with("age: "));
            assert!(msg.ends_with("s, TTL: 300s"));
        }
        other => panic!("expected expired-token error, got {:?}", other),
    }
}

#[test]
fn test_future_dated_token_invalid_not_expired() {
    // Dated 60 seconds in the future: more than the 30-second skew tolerance.
    let future_time = chrono::Utc::now() + chrono::Duration::seconds(60);
    let token =
        CallerToken::create_at("test-service", "my-secret-key", &future_time.to_rfc3339()).unwrap();

    let result = token.validate("my-secret-key", None);
    match result.unwrap_err() {
        GatewayError::InvalidCallerToken(msg) => {
            assert_eq!(msg, "issued_at is in the future");
        }
        other => panic!("expected invalid-token error, got {:?}", other),
    }
}

#[test]
fn test_signature_is_hex_of_mac() {
    // The signature is a 64-character lowercase hex digest, not the payload.
    let token = CallerToken::create_at("svc", "secret", "2026-02-18T00:00:00+00:00").unwrap();
    assert_eq!(token.signature.len(), 64);
    assert!(token.signature.chars().all(|c| c.is_ascii_hexdigit()));
    assert!(token.signature.chars().all(|c| !c.is_ascii_uppercase()));
    assert_ne!(token.signature, "svc|2026-02-18T00:00:00+00:00");

    // Different secrets give different signatures on the same payload.
    let other = CallerToken::create_at("svc", "secret-2", "2026-02-18T00:00:00+00:00").unwrap();
    assert_ne!(token.signature, other.signature);
}

#[test]
fn test_garbage_hex_signature_rejected() {
    let mut token = CallerToken::create("test-service", "my-secret-key").unwrap();
    token.signature = "not-hex!".to_string();

    match token.validate("my-secret-key", None) {
        Err(GatewayError::InvalidCallerToken(msg)) => {
            assert_eq!(msg, "signature is not valid hex");
        }
        other => panic!("expected invalid-token error, got {:?}", other),
    }
}

#[test]
fn test_unparseable_issued_at_rejected() {
    let mut token = CallerToken::create("test-service", "my-secret-key").unwrap();
    // Re-sign with a non-timestamp issuance so only the parse step fails.
    let resigned =
        CallerToken::create_at("test-service", "my-secret-key", "yesterday").unwrap();
    token.issued_at = resigned.issued_at;
    token.signature = resigned.signature;

    match token.validate("my-secret-key", None) {
        Err(GatewayError::InvalidCallerToken(msg)) => {
            assert_eq!(msg, "invalid issued_at timestamp");
        }
        other => panic!("expected invalid-token error, got {:?}", other),
    }
}

#[test]
fn test_error_codes_are_stable() {
    let invalid = GatewayError::InvalidCallerToken("x".to_string());
    let expired = GatewayError::ExpiredCallerToken("x".to_string());
    let missing = GatewayError::MissingExecutionContext("x".to_string());
    let denied = GatewayError::PolicyDenied("x".to_string());
    assert_eq!(invalid.code(), "INVALID_CALLER_TOKEN");
    assert_eq!(expired.code(), "EXPIRED_CALLER_TOKEN");
    assert_eq!(missing.code(), "EXECUTION_CONTEXT_REQUIRED");
    assert_eq!(denied.code(), "POLICY_DENIED");
    assert_eq!(invalid.message(), "x");
}

#[test]
fn test_validate_at_exact_expired_message() {
    let issued = "2026-02-18T00:00:00+00:00";
    let token = CallerToken::create_at("svc", "secret", issued).unwrap();
    let issued_ms = chrono::DateTime::parse_from_rfc3339(issued)
        .unwrap()
        .timestamp_millis();

    // Exactly 600 seconds later, under a 300-second TTL.
    match token.validate_at("secret", Some(300), issued_ms + 600_000) {
        Err(GatewayError::ExpiredCallerToken(msg)) => {
            assert_eq!(msg, "age: 600s, TTL: 300s");
        }
        other => panic!("expected expired-token error, got {:?}", other),
    }

    // Exactly at the TTL boundary the token is still accepted.
    token
        .validate_at("secret", Some(300), issued_ms + 300_000)
        .unwrap();
    // One millisecond past the boundary it is expired.
    assert!(token
        .validate_at("secret", Some(300), issued_ms + 300_001)
        .is_err());
}
