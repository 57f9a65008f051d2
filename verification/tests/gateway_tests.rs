use llm_security_core::caller_token::CallerToken;
use llm_security_core::error::GatewayError;
use llm_security_core::gateway::{
    wrap_batch_outcome, wrap_scan_outcome, Preset, ScanOperation, ScanResult, SecurityCore,
};
use llm_security_core::policy::{
    CentralizedPolicy, DefaultPolicy, DenyAllPolicy, GatewayContext, PolicyDecision,
};

fn test_context(secret: &str) -> GatewayContext {
    GatewayContext {
        execution_id: "exec-123".to_string(),
        parent_span_id: "span-456".to_string(),
        caller: CallerToken::create("test-service", secret).unwrap(),
    }
}

#[test]
fn test_standard_gateway() {
    let core = SecurityCore::standard("test-secret".to_string()).unwrap();
    let ctx = test_context("test-secret");

    let result = core.scan_prompt("Hello world", &ctx);
    assert!(result.is_ok());

    let job = result.unwrap();
    assert_eq!(job.caller_id, "test-service");
    assert_eq!(job.operation, ScanOperation::Prompt);
    assert_eq!(job.operation.name(), "scan_prompt");
    assert_eq!(job.texts, vec!["Hello world".to_string()]);

    // The capability's result is forwarded unchanged.
    let outcome = ScanResult { is_valid: true, risk_score_milli: 120 };
    assert_eq!(wrap_scan_outcome(Ok(outcome)).unwrap(), outcome);
}

#[test]
fn test_missing_execution_id() {
    let core = SecurityCore::standard("test-secret".to_string()).unwrap();
    let ctx = GatewayContext {
        execution_id: "".to_string(),
        parent_span_id: "span-456".to_string(),
        caller: CallerToken::create("test-service", "test-secret").unwrap(),
    };

    let result = core.scan_prompt("Hello", &ctx);
    assert!(result.is_err());
    assert!(matches!(
        result.unwrap_err(),
        GatewayError::MissingExecutionContext(_)
    ));
}

#[test]
fn test_missing_parent_span_id() {
    let core = SecurityCore::standard("test-secret".to_string()).unwrap();
    let ctx = GatewayContext {
        execution_id: "exec-123".to_string(),
        parent_span_id: "".to_string(),
        caller: CallerToken::create("test-service", "test-secret").unwrap(),
    };

    match core.scan_prompt("Hello", &ctx) {
        Err(GatewayError::MissingExecutionContext(msg)) => {
            assert_eq!(msg, "parent_span_id is required");
        }
        other => panic!("expected missing-execution-context error, got {:?}", other),
    }
}

#[test]
fn test_invalid_caller_token() {
    let core = SecurityCore::standard("test-secret".to_string()).unwrap();
    let ctx = GatewayContext {
        execution_id: "exec-123".to_string(),
        parent_span_id: "span-456".to_string(),
        caller: CallerToken::create("test-service", "wrong-secret").unwrap(),
    };

    let result = core.scan_prompt("Hello", &ctx);
    assert!(result.is_err());
    assert!(matches!(
        result.unwrap_err(),
        GatewayError::InvalidCallerToken(_)
    ));
}

#[test]
fn test_builder_missing_secret() {
    let result = SecurityCore::builder().with_preset(Preset::Standard).build();

    assert!(result.is_err());
}

#[test]
fn test_builder_with_secret() {
    let core = SecurityCore::builder()
        .with_secret("my-secret")
        .with_preset(Preset::Permissive)
        .with_token_ttl(600)
        .build()
        .unwrap();

    let ctx = test_context("my-secret");
    let result = core.scan_prompt("Hello", &ctx);
    assert!(result.is_ok());
}

#[test]
fn test_default_policy_allows_all() {
    let policy = DefaultPolicy;
    let ctx = test_context("secret");

    let decision = policy.authorize(&ctx, "scan_prompt").unwrap();
    assert!(decision.allowed);
    assert!(decision.reason.is_none());
}

#[test]
fn test_deny_all_policy() {
    let core = SecurityCore::builder()
        .with_secret("s1")
        .with_policy(DenyAllPolicy { reason: "maintenance window".to_string() })
        .build()
        .unwrap();
    let ctx = test_context("s1");

    for result in [
        core.scan_prompt("Hello", &ctx),
        core.scan_output("Hello", &ctx),
        core.scan_batch(&vec!["a".to_string(), "b".to_string()], &ctx),
    ] {
        match result {
            Err(GatewayError::PolicyDenied(reason)) => {
                assert_eq!(reason, "maintenance window");
            }
            other => panic!("expected policy-denied, got {:?}", other),
        }
    }
}

#[test]
fn test_scan_output_and_batch_jobs() {
    let core = SecurityCore::standard("test-secret".to_string()).unwrap();
    let ctx = test_context("test-secret");

    let out_job = core.scan_output("model says", &ctx).unwrap();
    assert_eq!(out_job.operation, ScanOperation::Output);
    assert_eq!(out_job.operation.name(), "scan_output");
    assert_eq!(out_job.texts, vec!["model says".to_string()]);

    let texts = vec!["one".to_string(), "two".to_string()];
    let batch_job = core.scan_batch(&texts, &ctx).unwrap();
    assert_eq!(batch_job.operation, ScanOperation::Batch);
    assert_eq!(batch_job.operation.name(), "scan_batch");
    assert_eq!(batch_job.texts, texts);
    assert_eq!(batch_job.caller_id, "test-service");
}

#[test]
fn test_expired_token_rejected_by_gateway() {
    let core = SecurityCore::standard("test-secret".to_string()).unwrap();
    let old_time = chrono::Utc::now() - chrono::Duration::seconds(600);
    let ctx = GatewayContext {
        execution_id: "exec-123".to_string(),
        parent_span_id: "span-456".to_string(),
        caller: CallerToken::create_at("test-service", "test-secret", &old_time.to_rfc3339())
            .unwrap(),
    };

    assert!(matches!(
        core.scan_prompt("Hello", &ctx).unwrap_err(),
        GatewayError::ExpiredCallerToken(_)
    ));
}

#[test]
fn test_wrap_scan_outcome_wraps_errors() {
    let err = wrap_scan_outcome(Err("engine unavailable".to_string())).unwrap_err();
    match &err {
        GatewayError::Shield(msg) => assert_eq!(msg, "engine unavailable"),
        other => panic!("expected capability error, got {:?}", other),
    }
    assert_eq!(err.code(), "SHIELD_ERROR");

    let results = vec![ScanResult { is_valid: true, risk_score_milli: 0 }];
    assert_eq!(wrap_batch_outcome(Ok(results.clone())).unwrap(), results);
    assert!(matches!(
        wrap_batch_outcome(Err("boom".to_string())).unwrap_err(),
        GatewayError::Shield(_)
    ));
}

#[test]
fn test_policy_decision_constructors() {
    let allow = PolicyDecision::allow();
    assert!(allow.allowed);
    assert!(allow.reason.is_none());

    let deny = PolicyDecision::deny("not today");
    assert!(!deny.allowed);
    assert_eq!(deny.reason.as_deref(), Some("not today"));
}
