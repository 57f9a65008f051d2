//! Trust-and-provenance layer around a text-scanning capability.
//!
//! Every scan request passes a single enforcement point: the caller is
//! authenticated by a short-lived HMAC-signed token, the execution-provenance
//! context is validated, a pluggable authorization policy is consulted, and a
//! causally-ordered, append-only trace of the work is recorded as a tree of
//! execution spans.
//!
//! The scanning capability itself is an outside collaborator: the gateway
//! performs the gatekeeping and hands back a caller-scoped delegation order;
//! the surrounding program performs the scan and wraps its outcome.

pub mod caller_token;
pub mod decimal;
pub mod encoding;
pub mod error;
pub mod execution;
pub mod gateway;
pub mod mac;
pub mod policy;
pub mod timestamp;
pub mod transport;

pub use caller_token::CallerToken;
pub use error::GatewayError;
pub use execution::{
    EnvelopedBatchScanResponse, EnvelopedScanResponse, ExecutionOutput, ExecutionSpan,
    SpanArtifact, SpanStatus, SpanType,
};
pub use gateway::{
    Preset, ScanJob, ScanOperation, ScanResult, SecurityCore, SecurityCoreBuilder,
};
pub use policy::{CentralizedPolicy, DefaultPolicy, DenyAllPolicy, GatewayContext, PolicyDecision};
pub use transport::{GatewayCaller, IngestResponse, TransportRejection, TransportVerdict};
