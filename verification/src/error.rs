//! Gateway error taxonomy.
//!
//! Every failure of the mediation layer carries a detail message and maps to
//! a distinct, stable machine-readable code, so integrators can branch on the
//! cause without parsing free text.

use vstd::prelude::*;

verus! {

/// Errors that can occur in the gateway.
#[derive(Debug, Clone)]
pub enum GatewayError {
    /// Invalid caller token (missing fields, bad hex, bad signature,
    /// unparseable or future-dated issuance timestamp).
    InvalidCallerToken(String),
    /// Caller token older than the configured TTL.
    ExpiredCallerToken(String),
    /// Missing required execution-provenance field.
    MissingExecutionContext(String),
    /// Operation denied by the centralized policy.
    PolicyDenied(String),
    /// Direct access to the scanning capability without the gateway.
    DirectAccess(String),
    /// Error reported by the wrapped scanning capability.
    Shield(String),
}

impl GatewayError {
    /// The detail message carried by this error, in spec form.
    pub open spec fn spec_message(&self) -> Seq<char> {
        match self {
            GatewayError::InvalidCallerToken(m) => m@,
            GatewayError::ExpiredCallerToken(m) => m@,
            GatewayError::MissingExecutionContext(m) => m@,
            GatewayError::PolicyDenied(m) => m@,
            GatewayError::DirectAccess(m) => m@,
            GatewayError::Shield(m) => m@,
        }
    }

    /// The detail message carried by this error.
    pub fn message(&self) -> (r: String)
        ensures
            r@ == self.spec_message(),
    {
        match self {
            GatewayError::InvalidCallerToken(m) => m.clone(),
            GatewayError::ExpiredCallerToken(m) => m.clone(),
            GatewayError::MissingExecutionContext(m) => m.clone(),
            GatewayError::PolicyDenied(m) => m.clone(),
            GatewayError::DirectAccess(m) => m.clone(),
            GatewayError::Shield(m) => m.clone(),
        }
    }

    /// The stable machine-readable identifier of this error kind.
    pub fn code(&self) -> (r: &'static str)
        ensures
            self is InvalidCallerToken ==> r@ == "INVALID_CALLER_TOKEN"@,
            self is ExpiredCallerToken ==> r@ == "EXPIRED_CALLER_TOKEN"@,
            self is MissingExecutionContext ==> r@ == "EXECUTION_CONTEXT_REQUIRED"@,
            self is PolicyDenied ==> r@ == "POLICY_DENIED"@,
            self is DirectAccess ==> r@ == "DIRECT_ACCESS_FORBIDDEN"@,
            self is Shield ==> r@ == "SHIELD_ERROR"@,
    {
        match self {
            GatewayError::InvalidCallerToken(_) => "INVALID_CALLER_TOKEN",
            GatewayError::ExpiredCallerToken(_) => "EXPIRED_CALLER_TOKEN",
            GatewayError::MissingExecutionContext(_) => "EXECUTION_CONTEXT_REQUIRED",
            GatewayError::PolicyDenied(_) => "POLICY_DENIED",
            GatewayError::DirectAccess(_) => "DIRECT_ACCESS_FORBIDDEN",
            GatewayError::Shield(_) => "SHIELD_ERROR",
        }
    }
}

/// The result is an invalid-caller-token error with the given message.
pub open spec fn is_invalid_token<T>(r: Result<T, GatewayError>, msg: Seq<char>) -> bool {
    r matches Err(GatewayError::InvalidCallerToken(m)) && m@ == msg
}

/// The result is an expired-caller-token error with the given message.
pub open spec fn is_expired_token<T>(r: Result<T, GatewayError>, msg: Seq<char>) -> bool {
    r matches Err(GatewayError::ExpiredCallerToken(m)) && m@ == msg
}

/// The result is a missing-execution-context error with the given message.
pub open spec fn is_missing_context<T>(r: Result<T, GatewayError>, msg: Seq<char>) -> bool {
    r matches Err(GatewayError::MissingExecutionContext(m)) && m@ == msg
}

/// The result is a policy-denied error with the given reason.
pub open spec fn is_policy_denied<T>(r: Result<T, GatewayError>, reason: Seq<char>) -> bool {
    r matches Err(GatewayError::PolicyDenied(m)) && m@ == reason
}

} // verus!
