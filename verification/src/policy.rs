//! Centralized policy interface for authorization decisions.
//!
//! A policy is consulted by the gateway after the caller token has validated.
//! Each policy implementation carries, as a spec function, the contract its
//! `authorize` method meets, so gateway callers can reason about the policies
//! they chose.

use vstd::prelude::*;

use crate::caller_token::CallerToken;
use crate::error::GatewayError;

verus! {

/// Execution context required for all gateway operations.
#[derive(Debug, Clone)]
pub struct GatewayContext {
    /// Identifier of the execution tree this call belongs to.
    pub execution_id: String,
    /// Identifier of the calling span.
    pub parent_span_id: String,
    /// Authenticated caller token.
    pub caller: CallerToken,
}

/// Result of a policy authorization check.
#[derive(Debug, Clone)]
pub struct PolicyDecision {
    /// Whether the operation is allowed.
    pub allowed: bool,
    /// Optional reason (typically set when denied).
    pub reason: Option<String>,
}

impl PolicyDecision {
    /// Create an "allowed" decision.
    pub fn allow() -> (r: Self)
        ensures
            r.allowed,
            r.reason is None,
    {
        Self { allowed: true, reason: None }
    }

    /// Create a "denied" decision with a reason.
    pub fn deny(reason: &str) -> (r: Self)
        ensures
            !r.allowed,
            r.reason matches Some(m) && m@ == reason@,
    {
        Self { allowed: false, reason: Some(reason.to_owned()) }
    }
}

/// Centralized policy interface for gateway authorization.
///
/// Implement this trait to add custom access control logic (per-caller
/// permissions, operation restrictions, and the like). `authorize_spec`
/// states what the implementation's `authorize` promises about its result;
/// `authorize` is invoked by the gateway only after the context's token has
/// already validated.
pub trait CentralizedPolicy: Sized {
    /// What this policy promises of each authorization outcome.
    spec fn authorize_spec(
        &self,
        context: GatewayContext,
        operation: Seq<char>,
        r: Result<PolicyDecision, GatewayError>,
    ) -> bool;

    /// Check whether a scan operation is allowed given the caller and
    /// context.
    fn authorize(&self, context: &GatewayContext, operation: &str) -> (r: Result<
        PolicyDecision,
        GatewayError,
    >)
        ensures
            self.authorize_spec(*context, operation@, r),
    ;
}

/// Default policy that allows all operations.
pub struct DefaultPolicy;

impl CentralizedPolicy for DefaultPolicy {
    open spec fn authorize_spec(
        &self,
        context: GatewayContext,
        operation: Seq<char>,
        r: Result<PolicyDecision, GatewayError>,
    ) -> bool {
        r matches Ok(d) && d.allowed && d.reason is None
    }

    fn authorize(&self, context: &GatewayContext, operation: &str) -> (r: Result<
        PolicyDecision,
        GatewayError,
    >) {
        Ok(PolicyDecision::allow())
    }
}

/// A policy that denies every operation with a fixed reason.
pub struct DenyAllPolicy {
    /// The reason reported with every denial.
    pub reason: String,
}

impl CentralizedPolicy for DenyAllPolicy {
    open spec fn authorize_spec(
        &self,
        context: GatewayContext,
        operation: Seq<char>,
        r: Result<PolicyDecision, GatewayError>,
    ) -> bool {
        r matches Ok(d) && !d.allowed && (d.reason matches Some(m) && m@ == self.reason@)
    }

    fn authorize(&self, context: &GatewayContext, operation: &str) -> (r: Result<
        PolicyDecision,
        GatewayError,
    >) {
        Ok(PolicyDecision::deny(self.reason.as_str()))
    }
}

} // verus!
