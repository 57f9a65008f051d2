//! SecurityCore: the sole authorized gateway for all scanning operations.
//!
//! Every scan call sequences validation, authorization, and delegation. A
//! scan operation that passes validation and authorization returns a
//! [`ScanJob`]: the caller-scoped delegation order, carrying the
//! authenticated caller identity as an explicit value so that it cannot leak
//! between concurrent calls. The embedding program runs the scanning
//! capability on that job and hands the outcome to [`wrap_scan_outcome`] or
//! [`wrap_batch_outcome`].

use vstd::prelude::*;

use crate::caller_token::{token_verdict, validate_post, DEFAULT_TTL_SECONDS};
use crate::error::{is_invalid_token, is_missing_context, is_policy_denied, GatewayError};
use crate::policy::{CentralizedPolicy, DefaultPolicy, GatewayContext, PolicyDecision};
use crate::timestamp::clock_now;

verus! {

/// Configuration preset for the wrapped scanning capability.
#[derive(Debug, Clone, Copy, PartialEq, Eq, Structural)]
pub enum Preset {
    /// Recommended configuration.
    Standard,
    /// Maximum security for regulated industries.
    Strict,
    /// Minimal security for development and testing.
    Permissive,
}

/// The result of one scan, as the capability describes it: validity plus a
/// risk indicator in thousandths.
#[derive(Debug, Clone, Copy, PartialEq, Eq, Structural)]
pub struct ScanResult {
    /// Whether the text passed the scan.
    pub is_valid: bool,
    /// Risk indicator, in thousandths (0 = no risk, 1000 = certain).
    pub risk_score_milli: u32,
}

/// The scan operations the gateway mediates.
#[derive(Debug, Clone, Copy, PartialEq, Eq, Structural)]
pub enum ScanOperation {
    /// Scan a user prompt.
    Prompt,
    /// Scan model output.
    Output,
    /// Scan a batch of prompts.
    Batch,
}

/// The wire name of a scan operation.
pub open spec fn spec_operation_name(op: ScanOperation) -> Seq<char> {
    match op {
        ScanOperation::Prompt => "scan_prompt"@,
        ScanOperation::Output => "scan_output"@,
        ScanOperation::Batch => "scan_batch"@,
    }
}

impl ScanOperation {
    /// The wire name of this operation.
    pub fn name(&self) -> (r: &'static str)
        ensures
            r@ == spec_operation_name(*self),
    {
        match self {
            ScanOperation::Prompt => "scan_prompt",
            ScanOperation::Output => "scan_output",
            ScanOperation::Batch => "scan_batch",
        }
    }
}

/// A caller-scoped delegation order: an authorized scan, with the
/// authenticated caller identity threaded through as an explicit value, so
/// concurrent calls can never observe each other's caller.
#[derive(Debug, Clone)]
pub struct ScanJob {
    /// The authenticated caller on whose behalf the scan runs.
    pub caller_id: String,
    /// Which scan operation was authorized.
    pub operation: ScanOperation,
    /// The texts to scan (one for prompt/output, any number for batch).
    pub texts: Vec<String>,
}

/// How a policy decision maps to the gateway outcome: an allowed decision
/// proceeds; a denial aborts with the decision's reason (empty if absent); a
/// policy error propagates unchanged.
pub open spec fn decision_outcome_matches(
    d: Result<PolicyDecision, GatewayError>,
    r: Result<(), GatewayError>,
) -> bool {
    match d {
        Ok(dec) => if dec.allowed {
            r is Ok
        } else {
            is_policy_denied(
                r,
                match dec.reason {
                    Some(s) => s@,
                    None => Seq::<char>::empty(),
                },
            )
        },
        Err(e) => r matches Err(e2) && e2 == e,
    }
}

/// Map a policy decision to the gateway outcome: allowed proceeds, denied
/// aborts with the decision's reason (or an empty reason if absent).
pub fn apply_decision(decision: PolicyDecision) -> (r: Result<(), GatewayError>)
    ensures
        decision_outcome_matches(Ok(decision), r),
        r is Ok <==> decision.allowed,
{
    if decision.allowed {
        Ok(())
    } else {
        let reason = match decision.reason {
            Some(m) => m,
            None => String::new(),
        };
        Err(GatewayError::PolicyDenied(reason))
    }
}

/// Forward a `Result` while forgetting the success value, in spec form.
pub open spec fn unit_result<T>(r: Result<T, GatewayError>) -> Result<(), GatewayError> {
    match r {
        Ok(_) => Ok(()),
        Err(e) => Err(e),
    }
}

/// Everything a scan gate decides once both provenance fields are present,
/// at instant `now_ms`: a token rejected by `token_verdict` aborts with the
/// corresponding token error; an accepted token consults the policy, whose
/// decision either yields the delegation order or aborts the call.
pub open spec fn gate_outcome<P: CentralizedPolicy>(
    policy: P,
    secret: Seq<char>,
    ttl_seconds: i64,
    ctx: GatewayContext,
    operation: ScanOperation,
    texts: Seq<Seq<char>>,
    now_ms: int,
    r: Result<ScanJob, GatewayError>,
) -> bool {
    if !(token_verdict(
        ctx.caller.caller_id@,
        ctx.caller.signature@,
        ctx.caller.issued_at@,
        secret,
        Some(ttl_seconds),
        now_ms,
    ) is Accept) {
        validate_post(ctx.caller, secret, Some(ttl_seconds), now_ms, unit_result(r))
    } else {
        exists|d: Result<PolicyDecision, GatewayError>|
            {
                &&& #[trigger] policy.authorize_spec(ctx, spec_operation_name(operation), d)
                &&& match d {
                    Ok(dec) => if dec.allowed {
                        r matches Ok(job) && job.caller_id@ == ctx.caller.caller_id@
                            && job.operation == operation && job.texts.deep_view()
                            == texts
                    } else {
                        is_policy_denied(
                            r,
                            match dec.reason {
                                Some(s) => s@,
                                None => Seq::<char>::empty(),
                            },
                        )
                    },
                    Err(e) => r matches Err(e2) && e2 == e,
                }
            }
    }
}

/// The sole authorized entry point for scanning.
///
/// Every scan request must provide a valid [`GatewayContext`] containing an
/// HMAC-signed [`crate::caller_token::CallerToken`] and non-empty
/// `execution_id` and `parent_span_id`. Configuration (secret, TTL, preset,
/// policy) is immutable for the gateway's lifetime.
pub struct SecurityCore<P: CentralizedPolicy> {
    shield_preset: Preset,
    shared_secret: String,
    token_ttl_seconds: i64,
    policy: P,
}

/// Builder for custom SecurityCore configurations.
pub struct SecurityCoreBuilder<P: CentralizedPolicy> {
    shared_secret: String,
    preset: Preset,
    token_ttl_seconds: i64,
    policy: P,
}

impl SecurityCore<DefaultPolicy> {
    /// Create a SecurityCore with the standard capability preset
    /// (recommended) and the default allow-all policy.
    pub fn standard(shared_secret: String) -> (r: Result<SecurityCore<DefaultPolicy>, GatewayError>)
        ensures
            r matches Ok(c) && c.spec_secret() == shared_secret@ && c.spec_ttl_seconds()
                == DEFAULT_TTL_SECONDS && c.spec_preset() == Preset::Standard,
    {
        Ok(
            SecurityCore {
                shield_preset: Preset::Standard,
                shared_secret,
                token_ttl_seconds: DEFAULT_TTL_SECONDS,
                policy: DefaultPolicy,
            },
        )
    }

    /// Create a SecurityCore with the strict capability preset.
    /// Maximum security for regulated industries.
    pub fn strict(shared_secret: String) -> (r: Result<SecurityCore<DefaultPolicy>, GatewayError>)
        ensures
            r matches Ok(c) && c.spec_secret() == shared_secret@ && c.spec_ttl_seconds()
                == DEFAULT_TTL_SECONDS && c.spec_preset() == Preset::Strict,
    {
        Ok(
            SecurityCore {
                shield_preset: Preset::Strict,
                shared_secret,
                token_ttl_seconds: DEFAULT_TTL_SECONDS,
                policy: DefaultPolicy,
            },
        )
    }

    /// Create a SecurityCore with the permissive capability preset.
    /// Minimal security for development and testing.
    pub fn permissive(shared_secret: String) -> (r: Result<
        SecurityCore<DefaultPolicy>,
        GatewayError,
    >)
        ensures
            r matches Ok(c) && c.spec_secret() == shared_secret@ && c.spec_ttl_seconds()
                == DEFAULT_TTL_SECONDS && c.spec_preset() == Preset::Permissive,
    {
        Ok(
            SecurityCore {
                shield_preset: Preset::Permissive,
                shared_secret,
                token_ttl_seconds: DEFAULT_TTL_SECONDS,
                policy: DefaultPolicy,
            },
        )
    }

    /// Create a builder for custom SecurityCore configuration.
    pub fn builder() -> (r: SecurityCoreBuilder<DefaultPolicy>)
        ensures
            r.spec_secret().len() == 0,
            r.spec_preset() == Preset::Standard,
            r.spec_ttl_seconds() == DEFAULT_TTL_SECONDS,
    {
        SecurityCoreBuilder::new()
    }
}

impl<P: CentralizedPolicy> SecurityCore<P> {
    /// The shared secret caller tokens are validated against.
    pub closed spec fn spec_secret(&self) -> Seq<char> {
        self.shared_secret@
    }

    /// The token TTL, in seconds.
    pub closed spec fn spec_ttl_seconds(&self) -> i64 {
        self.token_ttl_seconds
    }

    /// The configured capability preset.
    pub closed spec fn spec_preset(&self) -> Preset {
        self.shield_preset
    }

    /// The configured policy.
    pub closed spec fn spec_policy(&self) -> P {
        self.policy
    }

    /// Validate the full gateway context against an explicit instant: both
    /// provenance fields must be non-empty, and the caller token must check
    /// out under the configured secret and TTL.
    pub fn validate_context_at(&self, ctx: &GatewayContext, now_ms: i64) -> (r: Result<
        (),
        GatewayError,
    >)
        ensures
            ctx.execution_id@.len() == 0 ==> is_missing_context(r, "execution_id is required"@),
            ctx.execution_id@.len() > 0 && ctx.parent_span_id@.len() == 0 ==> is_missing_context(
                r,
                "parent_span_id is required"@,
            ),
            ctx.execution_id@.len() > 0 && ctx.parent_span_id@.len() > 0 ==> validate_post(
                ctx.caller,
                self.spec_secret(),
                Some(self.spec_ttl_seconds()),
                now_ms as int,
                r,
            ),
    {
        if ctx.execution_id.as_str().is_empty() {
            return Err(
                GatewayError::MissingExecutionContext("execution_id is required".to_owned()),
            );
        }
        if ctx.parent_span_id.as_str().is_empty() {
            return Err(
                GatewayError::MissingExecutionContext("parent_span_id is required".to_owned()),
            );
        }
        ctx.caller.validate_at(
            self.shared_secret.as_str(),
            Some(self.token_ttl_seconds),
            now_ms,
        )
    }

    /// Validate the full gateway context against the current wall clock.
    pub fn validate_context(&self, ctx: &GatewayContext) -> (r: Result<(), GatewayError>)
        ensures
            ctx.execution_id@.len() == 0 ==> is_missing_context(r, "execution_id is required"@),
            ctx.execution_id@.len() > 0 && ctx.parent_span_id@.len() == 0 ==> is_missing_context(
                r,
                "parent_span_id is required"@,
            ),
            ctx.execution_id@.len() > 0 && ctx.parent_span_id@.len() > 0 ==> exists|now_ms: int|
                #[trigger] validate_post(
                    ctx.caller,
                    self.spec_secret(),
                    Some(self.spec_ttl_seconds()),
                    now_ms,
                    r,
                ),
    {
        let now = clock_now();
        let r = self.validate_context_at(ctx, now.0);
        proof {
            if ctx.execution_id@.len() > 0 && ctx.parent_span_id@.len() > 0 {
                assert(validate_post(
                    ctx.caller,
                    self.spec_secret(),
                    Some(self.spec_ttl_seconds()),
                    now.0 as int,
                    r,
                ));
            }
        }
        r
    }

    /// Run the centralized policy check for one operation. The policy's own
    /// contract (`authorize_spec`) says what decision came back; the outcome
    /// maps through `decision_outcome_matches`.
    pub fn authorize_operation(&self, ctx: &GatewayContext, operation: &str) -> (r: Result<
        (),
        GatewayError,
    >)
        ensures
            exists|d: Result<PolicyDecision, GatewayError>|
                #[trigger] self.spec_policy().authorize_spec(*ctx, operation@, d)
                    && decision_outcome_matches(d, r),
    {
        let d = self.policy.authorize(ctx, operation);
        match d {
            Ok(decision) => {
                let ghost gd = Ok::<PolicyDecision, GatewayError>(decision);
                let r = apply_decision(decision);
                proof {
                    assert(self.spec_policy().authorize_spec(*ctx, operation@, gd)
                        && decision_outcome_matches(gd, r));
                }
                r
            },
            Err(e) => {
                let ghost gd = Err::<PolicyDecision, GatewayError>(e);
                let r = Err::<(), GatewayError>(e);
                proof {
                    assert(self.spec_policy().authorize_spec(*ctx, operation@, gd)
                        && decision_outcome_matches(gd, r));
                }
                r
            },
        }
    }

    /// Scan a prompt: validate the context, consult the policy, and on
    /// success return the caller-scoped delegation order for this text.
    pub fn scan_prompt(&self, text: &str, ctx: &GatewayContext) -> (r: Result<
        ScanJob,
        GatewayError,
    >)
        ensures
            ctx.execution_id@.len() == 0 ==> is_missing_context(r, "execution_id is required"@),
            ctx.execution_id@.len() > 0 && ctx.parent_span_id@.len() == 0 ==> is_missing_context(
                r,
                "parent_span_id is required"@,
            ),
            ctx.execution_id@.len() > 0 && ctx.parent_span_id@.len() > 0 ==> exists|now_ms: int|
                #[trigger] gate_outcome(
                    self.spec_policy(),
                    self.spec_secret(),
                    self.spec_ttl_seconds(),
                    *ctx,
                    ScanOperation::Prompt,
                    seq![text@],
                    now_ms,
                    r,
                ),
    {
        let mut texts: Vec<String> = Vec::new();
        texts.push(text.to_owned());
        proof {
            assert(texts.deep_view() =~= seq![text@]);
        }
        self.scan_gate(ctx, ScanOperation::Prompt, texts)
    }

    /// Scan model output: validate the context, consult the policy, and on
    /// success return the caller-scoped delegation order for this text.
    pub fn scan_output(&self, text: &str, ctx: &GatewayContext) -> (r: Result<
        ScanJob,
        GatewayError,
    >)
        ensures
            ctx.execution_id@.len() == 0 ==> is_missing_context(r, "execution_id is required"@),
            ctx.execution_id@.len() > 0 && ctx.parent_span_id@.len() == 0 ==> is_missing_context(
                r,
                "parent_span_id is required"@,
            ),
            ctx.execution_id@.len() > 0 && ctx.parent_span_id@.len() > 0 ==> exists|now_ms: int|
                #[trigger] gate_outcome(
                    self.spec_policy(),
                    self.spec_secret(),
                    self.spec_ttl_seconds(),
                    *ctx,
                    ScanOperation::Output,
                    seq![text@],
                    now_ms,
                    r,
                ),
    {
        let mut texts: Vec<String> = Vec::new();
        texts.push(text.to_owned());
        proof {
            assert(texts.deep_view() =~= seq![text@]);
        }
        self.scan_gate(ctx, ScanOperation::Output, texts)
    }

    /// Scan a batch of prompts: validate the context, consult the policy, and
    /// on success return the caller-scoped delegation order for these texts.
    pub fn scan_batch(&self, texts: &Vec<String>, ctx: &GatewayContext) -> (r: Result<
        ScanJob,
        GatewayError,
    >)
        ensures
            ctx.execution_id@.len() == 0 ==> is_missing_context(r, "execution_id is required"@),
            ctx.execution_id@.len() > 0 && ctx.parent_span_id@.len() == 0 ==> is_missing_context(
                r,
                "parent_span_id is required"@,
            ),
            ctx.execution_id@.len() > 0 && ctx.parent_span_id@.len() > 0 ==> exists|now_ms: int|
                #[trigger] gate_outcome(
                    self.spec_policy(),
                    self.spec_secret(),
                    self.spec_ttl_seconds(),
                    *ctx,
                    ScanOperation::Batch,
                    texts.deep_view(),
                    now_ms,
                    r,
                ),
    {
        let mut owned: Vec<String> = Vec::new();
        let mut i: usize = 0;
        while i < texts.len()
            invariant
                i <= texts@.len(),
                owned@.len() == i,
                forall|j: int| 0 <= j < i ==> owned@[j] == texts@[j],
            decreases texts@.len() - i,
        {
            owned.push(texts[i].clone());
            i = i + 1;
        }
        proof {
            assert(owned@ =~= texts@);
            assert(owned.deep_view() =~= texts.deep_view());
        }
        self.scan_gate(ctx, ScanOperation::Batch, owned)
    }

    /// The shared gate: validation, then authorization, then the delegation
    /// order.
    fn scan_gate(&self, ctx: &GatewayContext, operation: ScanOperation, texts: Vec<String>) -> (r:
        Result<ScanJob, GatewayError>)
        ensures
            ctx.execution_id@.len() == 0 ==> is_missing_context(r, "execution_id is required"@),
            ctx.execution_id@.len() > 0 && ctx.parent_span_id@.len() == 0 ==> is_missing_context(
                r,
                "parent_span_id is required"@,
            ),
            ctx.execution_id@.len() > 0 && ctx.parent_span_id@.len() > 0 ==> exists|now_ms: int|
                #[trigger] gate_outcome(
                    self.spec_policy(),
                    self.spec_secret(),
                    self.spec_ttl_seconds(),
                    *ctx,
                    operation,
                    texts.deep_view(),
                    now_ms,
                    r,
                ),
    {
        let ghost texts_view = texts.deep_view();
        let now = clock_now();
        let gate = self.validate_context_at(ctx, now.0);
        match gate {
            Err(e) => {
                let r = Err::<ScanJob, GatewayError>(e);
                proof {
                    if ctx.execution_id@.len() > 0 && ctx.parent_span_id@.len() > 0 {
                        assert(gate_outcome(
                            self.spec_policy(),
                            self.spec_secret(),
                            self.spec_ttl_seconds(),
                            *ctx,
                            operation,
                            texts_view,
                            now.0 as int,
                            r,
                        ));
                    }
                }
                r
            },
            Ok(_) => {
                let auth = self.authorize_operation(ctx, operation.name());
                match auth {
                    Err(e) => {
                        let r = Err::<ScanJob, GatewayError>(e);
                        proof {
                            let d = choose|d: Result<PolicyDecision, GatewayError>|
                                #[trigger] self.spec_policy().authorize_spec(
                                    *ctx,
                                    spec_operation_name(operation),
                                    d,
                                ) && decision_outcome_matches(d, Err(e));
                            assert(gate_outcome(
                                self.spec_policy(),
                                self.spec_secret(),
                                self.spec_ttl_seconds(),
                                *ctx,
                                operation,
                                texts_view,
                                now.0 as int,
                                r,
                            ));
                        }
                        r
                    },
                    Ok(_) => {
                        let job = ScanJob {
                            caller_id: ctx.caller.caller_id.clone(),
                            operation,
                            texts,
                        };
                        let r = Ok::<ScanJob, GatewayError>(job);
                        proof {
                            let d = choose|d: Result<PolicyDecision, GatewayError>|
                                #[trigger] self.spec_policy().authorize_spec(
                                    *ctx,
                                    spec_operation_name(operation),
                                    d,
                                ) && decision_outcome_matches(d, Ok(()));
                            assert(gate_outcome(
                                self.spec_policy(),
                                self.spec_secret(),
                                self.spec_ttl_seconds(),
                                *ctx,
                                operation,
                                texts_view,
                                now.0 as int,
                                r,
                            ));
                        }
                        r
                    },
                }
            },
        }
    }
}

impl SecurityCoreBuilder<DefaultPolicy> {
    /// A builder with no secret, the standard preset, the default TTL, and
    /// the default allow-all policy.
    fn new() -> (r: Self)
        ensures
            r.spec_secret().len() == 0,
            r.spec_preset() == Preset::Standard,
            r.spec_ttl_seconds() == DEFAULT_TTL_SECONDS,
    {
        SecurityCoreBuilder {
            shared_secret: String::new(),
            preset: Preset::Standard,
            token_ttl_seconds: DEFAULT_TTL_SECONDS,
            policy: DefaultPolicy,
        }
    }
}

impl<P: CentralizedPolicy> SecurityCoreBuilder<P> {
    /// The shared secret configured so far.
    pub closed spec fn spec_secret(&self) -> Seq<char> {
        self.shared_secret@
    }

    /// The capability preset configured so far.
    pub closed spec fn spec_preset(&self) -> Preset {
        self.preset
    }

    /// The token TTL configured so far, in seconds.
    pub closed spec fn spec_ttl_seconds(&self) -> i64 {
        self.token_ttl_seconds
    }

    /// The policy configured so far.
    pub closed spec fn spec_policy(&self) -> P {
        self.policy
    }

    /// Set the shared secret for caller token validation (required).
    pub fn with_secret(self, secret: &str) -> (r: Self)
        ensures
            r.spec_secret() == secret@,
            r.spec_preset() == self.spec_preset(),
            r.spec_ttl_seconds() == self.spec_ttl_seconds(),
            r.spec_policy() == self.spec_policy(),
    {
        SecurityCoreBuilder { shared_secret: secret.to_owned(), ..self }
    }

    /// Set the capability preset.
    pub fn with_preset(self, preset: Preset) -> (r: Self)
        ensures
            r.spec_secret() == self.spec_secret(),
            r.spec_preset() == preset,
            r.spec_ttl_seconds() == self.spec_ttl_seconds(),
            r.spec_policy() == self.spec_policy(),
    {
        SecurityCoreBuilder { preset, ..self }
    }

    /// Set the token TTL in seconds.
    pub fn with_token_ttl(self, seconds: i64) -> (r: Self)
        ensures
            r.spec_secret() == self.spec_secret(),
            r.spec_preset() == self.spec_preset(),
            r.spec_ttl_seconds() == seconds,
            r.spec_policy() == self.spec_policy(),
    {
        SecurityCoreBuilder { token_ttl_seconds: seconds, ..self }
    }

    /// Set a custom centralized policy.
    pub fn with_policy<Q: CentralizedPolicy>(self, policy: Q) -> (r: SecurityCoreBuilder<Q>)
        ensures
            r.spec_secret() == self.spec_secret(),
            r.spec_preset() == self.spec_preset(),
            r.spec_ttl_seconds() == self.spec_ttl_seconds(),
            r.spec_policy() == policy,
    {
        SecurityCoreBuilder {
            shared_secret: self.shared_secret,
            preset: self.preset,
            token_ttl_seconds: self.token_ttl_seconds,
            policy,
        }
    }

    /// Build the SecurityCore instance. Fails exactly when no shared secret
    /// was supplied.
    pub fn build(self) -> (r: Result<SecurityCore<P>, GatewayError>)
        ensures
            r is Ok <==> self.spec_secret().len() > 0,
            self.spec_secret().len() == 0 ==> is_invalid_token(
                r,
                "shared_secret is required for SecurityCore"@,
            ),
            r matches Ok(c) ==> {
                &&& c.spec_secret() == self.spec_secret()
                &&& c.spec_preset() == self.spec_preset()
                &&& c.spec_ttl_seconds() == self.spec_ttl_seconds()
                &&& c.spec_policy() == self.spec_policy()
            },
    {
        if self.shared_secret.as_str().is_empty() {
            return Err(
                GatewayError::InvalidCallerToken(
                    "shared_secret is required for SecurityCore".to_owned(),
                ),
            );
        }
        Ok(
            SecurityCore {
                shield_preset: self.preset,
                shared_secret: self.shared_secret,
                token_ttl_seconds: self.token_ttl_seconds,
                policy: self.policy,
            },
        )
    }
}

/// Under the default allow-all policy the gateway never denies by policy: a
/// gate outcome is either the delegation order or a caller-token or
/// missing-context error, never a policy denial.
pub proof fn lemma_default_policy_never_denies(
    secret: Seq<char>,
    ttl_seconds: i64,
    ctx: GatewayContext,
    operation: ScanOperation,
    texts: Seq<Seq<char>>,
    now_ms: int,
    r: Result<ScanJob, GatewayError>,
)
    ensures
        gate_outcome(DefaultPolicy, secret, ttl_seconds, ctx, operation, texts, now_ms, r)
            ==> !(r matches Err(e) && e is PolicyDenied),
{
}

/// Under a deny-all policy the gateway never delegates: a gate outcome is
/// always an error, and when the caller's token was accepted it is a policy
/// denial carrying the policy's configured reason.
pub proof fn lemma_deny_all_never_delegates(
    policy: crate::policy::DenyAllPolicy,
    secret: Seq<char>,
    ttl_seconds: i64,
    ctx: GatewayContext,
    operation: ScanOperation,
    texts: Seq<Seq<char>>,
    now_ms: int,
    r: Result<ScanJob, GatewayError>,
)
    ensures
        gate_outcome(policy, secret, ttl_seconds, ctx, operation, texts, now_ms, r) ==> {
            &&& r is Err
            &&& (token_verdict(
                ctx.caller.caller_id@,
                ctx.caller.signature@,
                ctx.caller.issued_at@,
                secret,
                Some(ttl_seconds),
                now_ms,
            ) is Accept ==> is_policy_denied(r, policy.reason@))
        },
{
}

/// Wrap the capability's outcome for one scan: success is forwarded
/// unchanged; a capability error is re-signaled as a gateway-layer error with
/// its original message.
pub fn wrap_scan_outcome(outcome: Result<ScanResult, String>) -> (r: Result<
    ScanResult,
    GatewayError,
>)
    ensures
        outcome matches Ok(s) ==> r matches Ok(s2) && s2 == s,
        outcome matches Err(m) ==> r matches Err(GatewayError::Shield(m2)) && m2@ == m@,
{
    match outcome {
        Ok(s) => Ok(s),
        Err(m) => Err(GatewayError::Shield(m)),
    }
}

/// Wrap the capability's outcome for a batch scan: success is forwarded
/// unchanged; a capability error is re-signaled as a gateway-layer error with
/// its original message.
pub fn wrap_batch_outcome(outcome: Result<Vec<ScanResult>, String>) -> (r: Result<
    Vec<ScanResult>,
    GatewayError,
>)
    ensures
        outcome matches Ok(s) ==> r matches Ok(s2) && s2 == s,
        outcome matches Err(m) ==> r matches Err(GatewayError::Shield(m2)) && m2@ == m@,
{
    match outcome {
        Ok(s) => Ok(s),
        Err(m) => Err(GatewayError::Shield(m)),
    }
}

} // verus!
