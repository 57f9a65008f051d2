use llm_security_core::execution::{ExecutionSpan, SpanStatus, SpanType};

#[test]
fn test_new_repo_span() {
    let span = ExecutionSpan::new_repo("exec-123", "parent-456");
    assert_eq!(span.span_type, SpanType::Repo);
    assert_eq!(span.execution_id, "exec-123");
    assert_eq!(span.parent_span_id, "parent-456");
    assert_eq!(span.name, "llm-shield");
    assert_eq!(span.status, SpanStatus::Running);
    assert!(span.children.is_empty());
}

#[test]
fn test_new_agent_span() {
    let repo = ExecutionSpan::new_repo("exec-123", "parent-456");
    let agent = ExecutionSpan::new_agent(&repo, "toxicity");
    assert_eq!(agent.span_type, SpanType::Agent);
    assert_eq!(agent.parent_span_id, repo.span_id);
    assert_eq!(agent.execution_id, "exec-123");
    assert_eq!(agent.name, "toxicity");
}

#[test]
fn test_complete_span() {
    let mut span = ExecutionSpan::new_repo("exec-123", "parent-456");
    span.complete();
    assert_eq!(span.status, SpanStatus::Completed);
    assert!(span.end_time.is_some());
    assert!(span.duration_ms.is_some());
}

#[test]
fn test_fail_span() {
    let mut span = ExecutionSpan::new_repo("exec-123", "parent-456");
    span.fail("something went wrong");
    assert_eq!(span.status, SpanStatus::Error);
    assert!(span.end_time.is_some());
    assert_eq!(span.artifacts.len(), 1);
    assert_eq!(span.artifacts[0].artifact_type, "error");
}

#[test]
fn test_attach_artifact() {
    let mut span = ExecutionSpan::new_repo("exec-123", "parent-456");
    span.attach_artifact("detection_signal", "{\"risk\":0.5}".to_string());
    assert_eq!(span.artifacts.len(), 1);
    assert_eq!(span.artifacts[0].artifact_type, "detection_signal");
}

#[test]
fn test_finalize_without_children_fails() {
    let span = ExecutionSpan::new_repo("exec-123", "parent-456");
    let result = span.finalize();
    assert!(result.is_err());
}

#[test]
fn test_finalize_with_children_succeeds() {
    let mut repo = ExecutionSpan::new_repo("exec-123", "parent-456");
    let mut agent = ExecutionSpan::new_agent(&repo, "toxicity");
    agent.complete();
    repo.children.push(agent);

    let output = repo.finalize().unwrap();
    assert_eq!(output.execution_id, "exec-123");
    assert_eq!(output.repo_span.status, SpanStatus::Completed);
    assert_eq!(output.repo_span.children.len(), 1);
}

#[test]
fn test_finalize_with_failed_child_succeeds() {
    // A child in any status satisfies the invariant.
    let mut repo = ExecutionSpan::new_repo("exec-123", "parent-456");
    let mut agent = ExecutionSpan::new_agent(&repo, "toxicity");
    agent.fail("scanner crashed");
    repo.children.push(agent);

    let output = repo.finalize().unwrap();
    assert_eq!(output.repo_span.status, SpanStatus::Completed);
    assert_eq!(output.repo_span.children[0].status, SpanStatus::Error);
}

#[test]
fn test_finalize_keeps_error_status() {
    // A repo span already failed keeps its error status through finalize.
    let mut repo = ExecutionSpan::new_repo("exec-123", "parent-456");
    let agent = ExecutionSpan::new_agent(&repo, "toxicity");
    repo.children.push(agent);
    repo.fail("downstream refused");

    let output = repo.finalize().unwrap();
    assert_eq!(output.repo_span.status, SpanStatus::Error);
}

#[test]
fn test_fail_appends_exactly_one_artifact() {
    let mut span = ExecutionSpan::new_repo("exec-123", "parent-456");
    span.attach_artifact("detection_signal", "{\"risk\":0.5}".to_string());
    let before = span.artifacts.len();
    span.fail("boom");
    assert_eq!(span.artifacts.len(), before + 1);
    let last = span.artifacts.last().unwrap();
    assert_eq!(last.artifact_type, "error");
    assert_eq!(last.data, "boom");
    // Earlier artifacts are untouched.
    assert_eq!(span.artifacts[0].artifact_type, "detection_signal");
}

#[test]
fn test_span_ids_are_uuids() {
    let span = ExecutionSpan::new_repo("exec-123", "parent-456");
    assert_eq!(span.span_id.len(), 36);
    assert_eq!(span.artifacts.len(), 0);
    // The start time is a parseable RFC 3339 timestamp.
    assert!(chrono::DateTime::parse_from_rfc3339(&span.start_time).is_ok());
}

#[test]
fn test_repo_span_attributes() {
    let repo = ExecutionSpan::new_repo("exec-123", "parent-456");
    assert_eq!(repo.attributes.len(), 1);
    assert_eq!(repo.attributes[0].0, "repo_name");
    assert_eq!(repo.attributes[0].1, "llm-shield");

    let agent = ExecutionSpan::new_agent(&repo, "toxicity");
    assert_eq!(agent.attributes.len(), 2);
    assert_eq!(agent.attributes[0].0, "agent_name");
    assert_eq!(agent.attributes[0].1, "toxicity");
    assert_eq!(agent.attributes[1].0, "repo_name");
}

#[test]
fn test_complete_at_exact_duration() {
    let mut span = ExecutionSpan::new_repo("exec-123", "parent-456");
    let start_ms = chrono::DateTime::parse_from_rfc3339(&span.start_time)
        .unwrap()
        .timestamp_millis();
    span.complete_at(start_ms + 1500, "2026-02-18T00:00:01.500+00:00");
    assert_eq!(span.duration_ms, Some(1500));
    assert_eq!(span.end_time.as_deref(), Some("2026-02-18T00:00:01.500+00:00"));

    // A completion earlier than the start clamps to zero.
    let mut early = ExecutionSpan::new_repo("exec-123", "parent-456");
    let early_start = chrono::DateTime::parse_from_rfc3339(&early.start_time)
        .unwrap()
        .timestamp_millis();
    early.complete_at(early_start - 10, "2026-02-18T00:00:00+00:00");
    assert_eq!(early.duration_ms, Some(0));
}
