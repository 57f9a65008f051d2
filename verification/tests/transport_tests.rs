use llm_security_core::caller_token::CallerToken;
use llm_security_core::transport::{
    accept_ingest, check_caller_headers, execution_context_check, TransportVerdict,
};

fn fresh_token(secret: &str) -> CallerToken {
    CallerToken::create("test-service", secret).unwrap()
}

#[test]
fn test_no_secret_passes_through() {
    let verdict = check_caller_headers(None, "", "", "");
    match verdict {
        TransportVerdict::Proceed(caller) => assert!(caller.is_none()),
        TransportVerdict::Reject(rej) => panic!("unexpected rejection: {:?}", rej),
    }
}

#[test]
fn test_valid_headers_proceed() {
    let secret = "gw-secret".to_string();
    let token = fresh_token(&secret);
    let verdict = check_caller_headers(
        Some(&secret),
        &token.caller_id,
        &token.signature,
        &token.issued_at,
    );
    match verdict {
        TransportVerdict::Proceed(Some(caller)) => {
            assert_eq!(caller.caller_id, "test-service");
        }
        other => panic!("expected authenticated pass-through, got {:?}", other),
    }
}

#[test]
fn test_missing_headers_rejected() {
    let secret = "gw-secret".to_string();
    let token = fresh_token(&secret);
    let verdict = check_caller_headers(Some(&secret), "", &token.signature, &token.issued_at);
    match verdict {
        TransportVerdict::Reject(rej) => {
            assert_eq!(rej.status, 401);
            assert_eq!(rej.code, "CALLER_TOKEN_REQUIRED");
            assert_eq!(rej.error, "Missing Caller Token");
        }
        other => panic!("expected rejection, got {:?}", other),
    }
}

#[test]
fn test_non_hex_signature_rejected() {
    let secret = "gw-secret".to_string();
    let token = fresh_token(&secret);
    let verdict =
        check_caller_headers(Some(&secret), &token.caller_id, "zz-not-hex", &token.issued_at);
    match verdict {
        TransportVerdict::Reject(rej) => {
            assert_eq!(rej.status, 401);
            assert_eq!(rej.code, "INVALID_CALLER_TOKEN");
            assert_eq!(rej.message, "Signature is not valid hex");
        }
        other => panic!("expected rejection, got {:?}", other),
    }
}

#[test]
fn test_mismatched_signature_rejected() {
    let secret = "gw-secret".to_string();
    let token = fresh_token("other-secret");
    let verdict = check_caller_headers(
        Some(&secret),
        &token.caller_id,
        &token.signature,
        &token.issued_at,
    );
    match verdict {
        TransportVerdict::Reject(rej) => {
            assert_eq!(rej.code, "INVALID_CALLER_TOKEN");
            assert_eq!(rej.message, "Signature mismatch");
        }
        other => panic!("expected rejection, got {:?}", other),
    }
}

#[test]
fn test_expired_header_token_rejected() {
    let secret = "gw-secret".to_string();
    let old_time = chrono::Utc::now() - chrono::Duration::seconds(600);
    let token =
        CallerToken::create_at("test-service", &secret, &old_time.to_rfc3339()).unwrap();
    let verdict = check_caller_headers(
        Some(&secret),
        &token.caller_id,
        &token.signature,
        &token.issued_at,
    );
    match verdict {
        TransportVerdict::Reject(rej) => {
            assert_eq!(rej.code, "EXPIRED_CALLER_TOKEN");
            assert!(rej.message.starts_with("Token expired (age: "));
            assert!(rej.message.ends_with("s, TTL: 300s)"));
        }
        other => panic!("expected rejection, got {:?}", other),
    }
}

#[test]
fn test_future_header_token_rejected() {
    let secret = "gw-secret".to_string();
    let future_time = chrono::Utc::now() + chrono::Duration::seconds(90);
    let token =
        CallerToken::create_at("test-service", &secret, &future_time.to_rfc3339()).unwrap();
    let verdict = check_caller_headers(
        Some(&secret),
        &token.caller_id,
        &token.signature,
        &token.issued_at,
    );
    match verdict {
        TransportVerdict::Reject(rej) => {
            assert_eq!(rej.code, "INVALID_CALLER_TOKEN");
            assert_eq!(rej.message, "Token issued_at is in the future");
        }
        other => panic!("expected rejection, got {:?}", other),
    }
}

#[test]
fn test_execution_context_present() {
    let eid = " exec-123 ".to_string();
    let pid = "span-456".to_string();
    let (e, p) = execution_context_check(Some(&eid), Some(&pid)).unwrap();
    // Header values are trimmed.
    assert_eq!(e, "exec-123");
    assert_eq!(p, "span-456");
}

#[test]
fn test_execution_context_missing() {
    let pid = "span-456".to_string();
    let rej = execution_context_check(None, Some(&pid)).unwrap_err();
    assert_eq!(rej.status, 400);
    assert_eq!(rej.code, "EXECUTION_CONTEXT_REQUIRED");
    assert_eq!(rej.error, "Missing Execution Context");

    // Whitespace-only values count as missing.
    let blank = "   ".to_string();
    let rej2 = execution_context_check(Some(&blank), Some(&pid)).unwrap_err();
    assert_eq!(rej2.code, "EXECUTION_CONTEXT_REQUIRED");
}

#[test]
fn test_accept_ingest() {
    let resp = accept_ingest("exec-abc-123".to_string());
    assert_eq!(resp.status, "accepted");
    assert_eq!(resp.execution_id, "exec-abc-123");
}
