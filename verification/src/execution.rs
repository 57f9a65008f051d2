//! Execution span hierarchy: a causally-ordered, append-only trace tree.
//!
//! A call's work is recorded as a tree of spans: a Repo-level span is created
//! on entry, Agent-level spans are created for the work that actually runs,
//! artifacts are attached as evidence, and the Repo span is finalized at the
//! end of the call. A Repo span with no Agent children represents a run where
//! no work occurred; finalizing it is a hard error, never a silent success.
//!
//! Every operation exists in a pure form parameterized by the current time
//! (`*_at`), and a clocked convenience form that reads the wall clock and
//! draws fresh span identifiers.

use vstd::prelude::*;

use crate::gateway::ScanResult;
use crate::timestamp::{
    clock_now, duration_between, duration_of, parse_rfc3339_millis, rfc3339_millis,
};

verus! {

/// Span type discriminator within the execution hierarchy.
#[derive(Debug, Clone, Copy, PartialEq, Eq, Structural)]
pub enum SpanType {
    /// Root span owned by the caller's orchestrator.
    Core,
    /// Repository-level span (this system).
    Repo,
    /// Agent/scanner-level span.
    Agent,
}

/// Status of span execution.
#[derive(Debug, Clone, Copy, PartialEq, Eq, Structural)]
pub enum SpanStatus {
    /// The span is still open.
    Running,
    /// The span finished successfully.
    Completed,
    /// The span finished with an error.
    Error,
}

/// An artifact or evidence attached to a span. Append-only: never removed or
/// mutated after attachment.
#[derive(Debug, Clone)]
pub struct SpanArtifact {
    /// Stable reference identifier.
    pub artifact_id: String,
    /// Classification of the artifact (for example "detection_signal" or
    /// "error").
    pub artifact_type: String,
    /// Data payload.
    pub data: String,
    /// RFC 3339 timestamp of when the artifact was produced.
    pub timestamp: String,
}

/// A single execution span in the hierarchy. Children are exclusively owned:
/// no span is referenced from two trees; `parent_span_id` is a logical causal
/// reference, never a traversal pointer.
#[derive(Debug)]
pub struct ExecutionSpan {
    /// Unique identifier for this span.
    pub span_id: String,
    /// Position in the hierarchy.
    pub span_type: SpanType,
    /// Identifier of the parent span (establishes causal ordering).
    pub parent_span_id: String,
    /// Identifier of the execution tree this span belongs to.
    pub execution_id: String,
    /// Human-readable name.
    pub name: String,
    /// Type-specific attributes; keys are unique.
    pub attributes: Vec<(String, String)>,
    /// RFC 3339 start timestamp.
    pub start_time: String,
    /// RFC 3339 end timestamp (absent while running).
    pub end_time: Option<String>,
    /// Current status.
    pub status: SpanStatus,
    /// Duration in milliseconds (absent while running).
    pub duration_ms: Option<u64>,
    /// Artifacts and evidence attached to this span.
    pub artifacts: Vec<SpanArtifact>,
    /// Child spans (agent spans nested under a repo span).
    pub children: Vec<ExecutionSpan>,
}

/// The complete execution output envelope.
#[derive(Debug)]
pub struct ExecutionOutput {
    /// Execution tree identifier.
    pub execution_id: String,
    /// Root repo-level span with nested agent spans.
    pub repo_span: ExecutionSpan,
}

/// Enveloped scan response that includes execution span data.
#[derive(Debug)]
pub struct EnvelopedScanResponse {
    /// The scan result.
    pub result: ScanResult,
    /// Execution span tree for the call.
    pub execution: ExecutionOutput,
}

/// Enveloped batch scan response.
#[derive(Debug)]
pub struct EnvelopedBatchScanResponse {
    /// The batch scan results.
    pub result: Vec<ScanResult>,
    /// Execution span tree for the call.
    pub execution: ExecutionOutput,
}

/// Relies on `uuid::Uuid::new_v4` (and its hyphenated rendering via
/// `to_string`): a freshly generated random version-4 UUID, which renders as
/// 36 characters. The value is random; nothing more is promised of it.
#[verifier::external_body]
pub(crate) fn fresh_uuid() -> (r: String)
    ensures
        r@.len() == 36,
{
    uuid::Uuid::new_v4().to_string()
}

/// The two spans agree on everything a status transition never touches.
pub open spec fn same_span_identity(a: ExecutionSpan, b: ExecutionSpan) -> bool {
    &&& a.span_id == b.span_id
    &&& a.span_type == b.span_type
    &&& a.parent_span_id == b.parent_span_id
    &&& a.execution_id == b.execution_id
    &&& a.name == b.name
    &&& a.attributes == b.attributes
    &&& a.start_time == b.start_time
}

/// How a status transition updates `duration_ms`: the elapsed time from the
/// stored start to `now_ms` when the stored start parses, else the previous
/// value (a malformed start never fails the transition).
pub open spec fn duration_update(
    start_time: Seq<char>,
    previous: Option<u64>,
    now_ms: int,
) -> Option<u64> {
    match rfc3339_millis(start_time) {
        Some(start_ms) => Some(duration_of(start_ms, now_ms)),
        None => previous,
    }
}

impl ExecutionSpan {
    /// Create a repo-level span with explicit identifier and start time.
    pub fn new_repo_at(
        execution_id: &str,
        parent_span_id: &str,
        span_id: &str,
        start_time: &str,
    ) -> (r: ExecutionSpan)
        ensures
            r.span_id@ == span_id@,
            r.span_type is Repo,
            r.parent_span_id@ == parent_span_id@,
            r.execution_id@ == execution_id@,
            r.name@ == "llm-shield"@,
            r.attributes@.len() == 1,
            r.attributes@[0].0@ == "repo_name"@,
            r.attributes@[0].1@ == "llm-shield"@,
            r.start_time@ == start_time@,
            r.end_time is None,
            r.status is Running,
            r.duration_ms is None,
            r.artifacts@.len() == 0,
            r.children@.len() == 0,
    {
        let mut attributes: Vec<(String, String)> = Vec::new();
        attributes.push(("repo_name".to_owned(), "llm-shield".to_owned()));
        ExecutionSpan {
            span_id: span_id.to_owned(),
            span_type: SpanType::Repo,
            parent_span_id: parent_span_id.to_owned(),
            execution_id: execution_id.to_owned(),
            name: "llm-shield".to_owned(),
            attributes,
            start_time: start_time.to_owned(),
            end_time: None,
            status: SpanStatus::Running,
            duration_ms: None,
            artifacts: Vec::new(),
            children: Vec::new(),
        }
    }

    /// Create a repo-level span: fresh span id, started now.
    pub fn new_repo(execution_id: &str, parent_span_id: &str) -> (r: ExecutionSpan)
        ensures
            r.span_id@.len() == 36,
            r.span_type is Repo,
            r.parent_span_id@ == parent_span_id@,
            r.execution_id@ == execution_id@,
            r.name@ == "llm-shield"@,
            r.attributes@.len() == 1,
            r.attributes@[0].0@ == "repo_name"@,
            r.attributes@[0].1@ == "llm-shield"@,
            rfc3339_millis(r.start_time@) is Some,
            r.end_time is None,
            r.status is Running,
            r.duration_ms is None,
            r.artifacts@.len() == 0,
            r.children@.len() == 0,
    {
        let span_id = fresh_uuid();
        let now = clock_now();
        ExecutionSpan::new_repo_at(execution_id, parent_span_id, span_id.as_str(), now.1.as_str())
    }

    /// Create an agent-level span as a child of a repo span, with explicit
    /// identifier and start time: the child's `parent_span_id` is the repo
    /// span's own id and its `execution_id` is inherited.
    pub fn new_agent_at(
        repo_span: &ExecutionSpan,
        agent_name: &str,
        span_id: &str,
        start_time: &str,
    ) -> (r: ExecutionSpan)
        ensures
            r.span_id@ == span_id@,
            r.span_type is Agent,
            r.parent_span_id@ == repo_span.span_id@,
            r.execution_id@ == repo_span.execution_id@,
            r.name@ == agent_name@,
            r.attributes@.len() == 2,
            r.attributes@[0].0@ == "agent_name"@,
            r.attributes@[0].1@ == agent_name@,
            r.attributes@[1].0@ == "repo_name"@,
            r.attributes@[1].1@ == "llm-shield"@,
            r.start_time@ == start_time@,
            r.end_time is None,
            r.status is Running,
            r.duration_ms is None,
            r.artifacts@.len() == 0,
            r.children@.len() == 0,
    {
        let mut attributes: Vec<(String, String)> = Vec::new();
        attributes.push(("agent_name".to_owned(), agent_name.to_owned()));
        attributes.push(("repo_name".to_owned(), "llm-shield".to_owned()));
        ExecutionSpan {
            span_id: span_id.to_owned(),
            span_type: SpanType::Agent,
            parent_span_id: repo_span.span_id.clone(),
            execution_id: repo_span.execution_id.clone(),
            name: agent_name.to_owned(),
            attributes,
            start_time: start_time.to_owned(),
            end_time: None,
            status: SpanStatus::Running,
            duration_ms: None,
            artifacts: Vec::new(),
            children: Vec::new(),
        }
    }

    /// Create an agent-level span as a child of a repo span: fresh span id,
    /// started now.
    pub fn new_agent(repo_span: &ExecutionSpan, agent_name: &str) -> (r: ExecutionSpan)
        ensures
            r.span_id@.len() == 36,
            r.span_type is Agent,
            r.parent_span_id@ == repo_span.span_id@,
            r.execution_id@ == repo_span.execution_id@,
            r.name@ == agent_name@,
            r.attributes@.len() == 2,
            r.attributes@[0].0@ == "agent_name"@,
            r.attributes@[0].1@ == agent_name@,
            r.attributes@[1].0@ == "repo_name"@,
            r.attributes@[1].1@ == "llm-shield"@,
            rfc3339_millis(r.start_time@) is Some,
            r.end_time is None,
            r.status is Running,
            r.duration_ms is None,
            r.artifacts@.len() == 0,
            r.children@.len() == 0,
    {
        let span_id = fresh_uuid();
        let now = clock_now();
        ExecutionSpan::new_agent_at(repo_span, agent_name, span_id.as_str(), now.1.as_str())
    }

    /// Attach an artifact with explicit identifier and timestamp. Appends to
    /// the ordered artifact sequence; everything else is untouched.
    pub fn attach_artifact_at(
        &mut self,
        artifact_type: &str,
        data: String,
        artifact_id: &str,
        timestamp: &str,
    )
        ensures
            same_span_identity(*final(self), *old(self)),
            final(self).status == old(self).status,
            final(self).end_time == old(self).end_time,
            final(self).duration_ms == old(self).duration_ms,
            final(self).children == old(self).children,
            final(self).artifacts@.len() == old(self).artifacts@.len() + 1,
            final(self).artifacts@.drop_last() == old(self).artifacts@,
            ({
                let a = final(self).artifacts@.last();
                &&& a.artifact_id@ == artifact_id@
                &&& a.artifact_type@ == artifact_type@
                &&& a.data == data
                &&& a.timestamp@ == timestamp@
            }),
    {
        self.artifacts.push(
            SpanArtifact {
                artifact_id: artifact_id.to_owned(),
                artifact_type: artifact_type.to_owned(),
                data,
                timestamp: timestamp.to_owned(),
            },
        );
        proof {
            assert(self.artifacts@.drop_last() =~= old(self).artifacts@);
        }
    }

    /// Attach an artifact: fresh artifact id, timestamped now. Appends to the
    /// ordered artifact sequence, with no deduplication; everything else is
    /// untouched.
    pub fn attach_artifact(&mut self, artifact_type: &str, data: String)
        ensures
            same_span_identity(*final(self), *old(self)),
            final(self).status == old(self).status,
            final(self).end_time == old(self).end_time,
            final(self).duration_ms == old(self).duration_ms,
            final(self).children == old(self).children,
            final(self).artifacts@.len() == old(self).artifacts@.len() + 1,
            final(self).artifacts@.drop_last() == old(self).artifacts@,
            ({
                let a = final(self).artifacts@.last();
                &&& a.artifact_id@.len() == 36
                &&& a.artifact_type@ == artifact_type@
                &&& a.data == data
                &&& rfc3339_millis(a.timestamp@) is Some
            }),
    {
        let artifact_id = fresh_uuid();
        let now = clock_now();
        self.attach_artifact_at(artifact_type, data, artifact_id.as_str(), now.1.as_str());
    }

    /// Mark this span as successfully completed at an explicit instant, with
    /// the given end-time text.
    pub fn complete_at(&mut self, now_ms: i64, end_time: &str)
        ensures
            same_span_identity(*final(self), *old(self)),
            final(self).status is Completed,
            final(self).end_time matches Some(t) && t@ == end_time@,
            final(self).duration_ms == duration_update(
                old(self).start_time@,
                old(self).duration_ms,
                now_ms as int,
            ),
            final(self).artifacts == old(self).artifacts,
            final(self).children == old(self).children,
    {
        self.end_time = Some(end_time.to_owned());
        self.status = SpanStatus::Completed;
        match parse_rfc3339_millis(self.start_time.as_str()) {
            Some(start_ms) => {
                self.duration_ms = Some(duration_between(start_ms, now_ms));
            },
            None => {},
        }
    }

    /// Mark this span as successfully completed now.
    pub fn complete(&mut self)
        ensures
            same_span_identity(*final(self), *old(self)),
            final(self).status is Completed,
            final(self).end_time matches Some(t) && rfc3339_millis(t@) is Some,
            rfc3339_millis(old(self).start_time@) is Some ==> final(self).duration_ms is Some,
            rfc3339_millis(old(self).start_time@) is None ==> final(self).duration_ms == old(
                self,
            ).duration_ms,
            final(self).artifacts == old(self).artifacts,
            final(self).children == old(self).children,
    {
        let now = clock_now();
        self.complete_at(now.0, now.1.as_str());
    }

    /// Mark this span as failed at an explicit instant: same timing
    /// bookkeeping as completion, status `Error`, and exactly one appended
    /// artifact of type "error" carrying the reason.
    pub fn fail_at(&mut self, error: &str, now_ms: i64, end_time: &str, artifact_id: &str)
        ensures
            same_span_identity(*final(self), *old(self)),
            final(self).status is Error,
            final(self).end_time matches Some(t) && t@ == end_time@,
            final(self).duration_ms == duration_update(
                old(self).start_time@,
                old(self).duration_ms,
                now_ms as int,
            ),
            final(self).children == old(self).children,
            final(self).artifacts@.len() == old(self).artifacts@.len() + 1,
            final(self).artifacts@.drop_last() == old(self).artifacts@,
            ({
                let a = final(self).artifacts@.last();
                &&& a.artifact_id@ == artifact_id@
                &&& a.artifact_type@ == "error"@
                &&& a.data@ == error@
                &&& a.timestamp@ == end_time@
            }),
    {
        self.end_time = Some(end_time.to_owned());
        self.status = SpanStatus::Error;
        match parse_rfc3339_millis(self.start_time.as_str()) {
            Some(start_ms) => {
                self.duration_ms = Some(duration_between(start_ms, now_ms));
            },
            None => {},
        }
        self.artifacts.push(
            SpanArtifact {
                artifact_id: artifact_id.to_owned(),
                artifact_type: "error".to_owned(),
                data: error.to_owned(),
                timestamp: end_time.to_owned(),
            },
        );
        proof {
            assert(self.artifacts@.drop_last() =~= old(self).artifacts@);
        }
    }

    /// Mark this span as failed now, with an explicit reason: status `Error`,
    /// and exactly one appended artifact of type "error" whose data is the
    /// reason — failure is both a status and a recorded, inspectable
    /// artifact.
    pub fn fail(&mut self, error: &str)
        ensures
            same_span_identity(*final(self), *old(self)),
            final(self).status is Error,
            final(self).end_time matches Some(t) && rfc3339_millis(t@) is Some,
            rfc3339_millis(old(self).start_time@) is Some ==> final(self).duration_ms is Some,
            rfc3339_millis(old(self).start_time@) is None ==> final(self).duration_ms == old(
                self,
            ).duration_ms,
            final(self).children == old(self).children,
            final(self).artifacts@.len() == old(self).artifacts@.len() + 1,
            final(self).artifacts@.drop_last() == old(self).artifacts@,
            ({
                let a = final(self).artifacts@.last();
                &&& a.artifact_id@.len() == 36
                &&& a.artifact_type@ == "error"@
                &&& a.data@ == error@
                &&& rfc3339_millis(a.timestamp@) is Some
            }),
    {
        let artifact_id = fresh_uuid();
        let now = clock_now();
        self.fail_at(error, now.0, now.1.as_str(), artifact_id.as_str());
    }

    /// Finalize the repo span at an explicit instant and produce the
    /// execution output.
    ///
    /// Fails exactly when the span has no children: a repo span without
    /// agent-level spans represents a run where no work occurred and must
    /// never be reported as a normal result. Otherwise, a span still running
    /// is completed first.
    pub fn finalize_at(self, now_ms: i64, end_time: &str) -> (r: Result<ExecutionOutput, String>)
        ensures
            r is Ok <==> self.children@.len() > 0,
            self.children@.len() == 0 ==> (r matches Err(m) && m@
                == "Execution invariant violated: no agent-level spans were emitted"@),
            r matches Ok(out) ==> {
                &&& out.execution_id == self.execution_id
                &&& same_span_identity(out.repo_span, self)
                &&& out.repo_span.children == self.children
                &&& out.repo_span.artifacts == self.artifacts
                &&& (self.status is Running ==> {
                    &&& out.repo_span.status is Completed
                    &&& out.repo_span.end_time matches Some(t) && t@ == end_time@
                    &&& out.repo_span.duration_ms == duration_update(
                        self.start_time@,
                        self.duration_ms,
                        now_ms as int,
                    )
                })
                &&& (!(self.status is Running) ==> {
                    &&& out.repo_span.status == self.status
                    &&& out.repo_span.end_time == self.end_time
                    &&& out.repo_span.duration_ms == self.duration_ms
                })
            },
    {
        if self.children.len() == 0 {
            return Err(
                "Execution invariant violated: no agent-level spans were emitted".to_owned(),
            );
        }
        let mut span = self;
        match span.status {
            SpanStatus::Running => span.complete_at(now_ms, end_time),
            _ => {},
        }
        Ok(ExecutionOutput { execution_id: span.execution_id.clone(), repo_span: span })
    }

    /// Finalize the repo span now and produce the execution output.
    ///
    /// Fails exactly when the span has no children; otherwise a span still
    /// running is completed, and a span already completed or failed keeps its
    /// status and timing.
    pub fn finalize(self) -> (r: Result<ExecutionOutput, String>)
        ensures
            r is Ok <==> self.children@.len() > 0,
            self.children@.len() == 0 ==> (r matches Err(m) && m@
                == "Execution invariant violated: no agent-level spans were emitted"@),
            r matches Ok(out) ==> {
                &&& out.execution_id == self.execution_id
                &&& same_span_identity(out.repo_span, self)
                &&& out.repo_span.children == self.children
                &&& out.repo_span.artifacts == self.artifacts
                &&& (self.status is Running ==> out.repo_span.status is Completed
                    && out.repo_span.end_time is Some)
                &&& (!(self.status is Running) ==> {
                    &&& out.repo_span.status == self.status
                    &&& out.repo_span.end_time == self.end_time
                    &&& out.repo_span.duration_ms == self.duration_ms
                })
            },
    {
        let now = clock_now();
        self.finalize_at(now.0, now.1.as_str())
    }
}

} // verus!
