//! Transport-level checks, as pure decision functions.
//!
//! The transport layer guards scan routes with two independent checks before
//! a request reaches the gateway: a caller-token check against the wire
//! headers (enabled only when a shared secret is configured — defense in
//! depth beside the gateway's own validation), and an unconditional
//! execution-provenance check. Both produce structured rejections carrying a
//! stable machine-readable code. The surrounding program extracts the header
//! values and responds as the verdict says.

use vstd::prelude::*;

use crate::caller_token::{millis_to_seconds_trunc, payload_string, token_verdict};
use crate::decimal::{append_decimal_i64, decimal_of_int};
use crate::encoding::hex_decode;
use crate::mac::hmac_sha256_verify;
use crate::timestamp::{clock_now, parse_rfc3339_millis, rfc3339_millis};

verus! {

/// Authenticated caller identity, extracted by the transport-level check for
/// the handlers behind it.
#[derive(Debug, Clone)]
pub struct GatewayCaller {
    /// The authenticated caller identifier.
    pub caller_id: String,
}

/// A structured rejection produced by a transport-level check.
#[derive(Debug, Clone)]
pub struct TransportRejection {
    /// HTTP status to respond with.
    pub status: u16,
    /// Short error title.
    pub error: String,
    /// Human-readable detail.
    pub message: String,
    /// Stable machine-readable code.
    pub code: String,
}

/// The decision of the transport-level caller-token check.
#[derive(Debug, Clone)]
pub enum TransportVerdict {
    /// Let the request through; carries the authenticated caller when the
    /// check ran (it is skipped when no secret is configured).
    Proceed(Option<GatewayCaller>),
    /// Reject the request.
    Reject(TransportRejection),
}

/// The verdict is a rejection with exactly these fields.
pub open spec fn is_reject(
    r: TransportVerdict,
    status: int,
    error: Seq<char>,
    message: Seq<char>,
    code: Seq<char>,
) -> bool {
    r matches TransportVerdict::Reject(rej) && rej.status == status && rej.error@ == error
        && rej.message@ == message && rej.code@ == code
}

/// The view of an optional header value.
pub open spec fn opt_string_view(s: Option<&String>) -> Option<Seq<char>> {
    match s {
        Some(v) => Some(v@),
        None => None,
    }
}

/// The fixed TTL of the transport-level token check, in seconds.
pub const TRANSPORT_TTL_SECONDS: i64 = 300;

/// The detail message of a transport-level expired-token rejection.
pub open spec fn transport_expired_message(age_ms: int) -> Seq<char> {
    "Token expired (age: "@ + decimal_of_int(millis_to_seconds_trunc(age_ms)) + "s, TTL: 300s)"@
}

/// Everything the transport-level caller-token check promises: with no secret
/// configured it passes every request through unchecked; otherwise missing
/// header fields are rejected as a missing caller token, and present fields
/// are held to the same token verdict as the gateway's own validation, with a
/// fixed 300-second TTL.
pub open spec fn caller_check_post(
    secret: Option<Seq<char>>,
    caller_id: Seq<char>,
    signature: Seq<char>,
    issued_at: Seq<char>,
    now_ms: int,
    r: TransportVerdict,
) -> bool {
    match secret {
        None => r matches TransportVerdict::Proceed(c) && c is None,
        Some(sec) => {
            if caller_id.len() == 0 || signature.len() == 0 || issued_at.len() == 0 {
                is_reject(
                    r,
                    401,
                    "Missing Caller Token"@,
                    "A valid caller token is required. Provide x-caller-id, x-caller-signature, x-caller-issued-at headers. Direct calls to LLM-Shield are forbidden; use LLM-Security-Core."@,
                    "CALLER_TOKEN_REQUIRED"@,
                )
            } else {
                match token_verdict(
                    caller_id,
                    signature,
                    issued_at,
                    sec,
                    Some(TRANSPORT_TTL_SECONDS),
                    now_ms,
                ) {
                    crate::caller_token::TokenVerdict::Accept => r matches TransportVerdict::Proceed(
                        c,
                    ) && c matches Some(gc) && gc.caller_id@ == caller_id,
                    crate::caller_token::TokenVerdict::SignatureNotHex => is_reject(
                        r,
                        401,
                        "Invalid Caller Token"@,
                        "Signature is not valid hex"@,
                        "INVALID_CALLER_TOKEN"@,
                    ),
                    crate::caller_token::TokenVerdict::SignatureMismatch => is_reject(
                        r,
                        401,
                        "Invalid Caller Token"@,
                        "Signature mismatch"@,
                        "INVALID_CALLER_TOKEN"@,
                    ),
                    crate::caller_token::TokenVerdict::BadTimestamp => is_reject(
                        r,
                        401,
                        "Invalid Caller Token"@,
                        "Invalid issued_at timestamp format (expected RFC 3339)"@,
                        "INVALID_CALLER_TOKEN"@,
                    ),
                    crate::caller_token::TokenVerdict::Expired => match rfc3339_millis(issued_at) {
                        Some(issued_ms) => is_reject(
                            r,
                            401,
                            "Invalid Caller Token"@,
                            transport_expired_message(now_ms - issued_ms),
                            "EXPIRED_CALLER_TOKEN"@,
                        ),
                        None => false,
                    },
                    crate::caller_token::TokenVerdict::FutureDated => is_reject(
                        r,
                        401,
                        "Invalid Caller Token"@,
                        "Token issued_at is in the future"@,
                        "INVALID_CALLER_TOKEN"@,
                    ),
                    _ => false,
                }
            }
        },
    }
}

/// The transport-level caller-token check against an explicit instant: when a
/// secret is configured, the three caller-token headers must be present and
/// the token they form must verify and be within its lifetime.
pub fn check_caller_headers_at(
    secret: Option<&String>,
    caller_id: &str,
    signature: &str,
    issued_at: &str,
    now_ms: i64,
) -> (r: TransportVerdict)
    ensures
        caller_check_post(
            opt_string_view(secret),
            caller_id@,
            signature@,
            issued_at@,
            now_ms as int,
            r,
        ),
{
    let sec = match secret {
        Some(s) => s,
        None => {
            return TransportVerdict::Proceed(None);
        },
    };
    if caller_id.is_empty() || signature.is_empty() || issued_at.is_empty() {
        return TransportVerdict::Reject(
            TransportRejection {
                status: 401,
                error: "Missing Caller Token".to_owned(),
                message:
                    "A valid caller token is required. Provide x-caller-id, x-caller-signature, x-caller-issued-at headers. Direct calls to LLM-Shield are forbidden; use LLM-Security-Core.".to_owned(),
                code: "CALLER_TOKEN_REQUIRED".to_owned(),
            },
        );
    }
    let sig_bytes = match hex_decode(signature) {
        Some(b) => b,
        None => {
            return TransportVerdict::Reject(
                TransportRejection {
                    status: 401,
                    error: "Invalid Caller Token".to_owned(),
                    message: "Signature is not valid hex".to_owned(),
                    code: "INVALID_CALLER_TOKEN".to_owned(),
                },
            );
        },
    };
    let payload = payload_string(caller_id, issued_at);
    if !hmac_sha256_verify(sec.as_str(), payload.as_str(), sig_bytes.as_slice()) {
        return TransportVerdict::Reject(
            TransportRejection {
                status: 401,
                error: "Invalid Caller Token".to_owned(),
                message: "Signature mismatch".to_owned(),
                code: "INVALID_CALLER_TOKEN".to_owned(),
            },
        );
    }
    let issued_ms = match parse_rfc3339_millis(issued_at) {
        Some(ms) => ms,
        None => {
            return TransportVerdict::Reject(
                TransportRejection {
                    status: 401,
                    error: "Invalid Caller Token".to_owned(),
                    message: "Invalid issued_at timestamp format (expected RFC 3339)".to_owned(),
                    code: "INVALID_CALLER_TOKEN".to_owned(),
                },
            );
        },
    };
    let age_ms: i128 = now_ms as i128 - issued_ms as i128;
    if age_ms > (TRANSPORT_TTL_SECONDS as i128) * 1000 {
        let age_s: i64 = if age_ms >= 0 {
            ((age_ms as u128) / 1000) as i64
        } else {
            -((((-age_ms) as u128) / 1000) as i64)
        };
        proof {
            assert(age_s as int == millis_to_seconds_trunc(now_ms as int - issued_ms as int));
        }
        let mut msg = "Token expired (age: ".to_owned();
        append_decimal_i64(&mut msg, age_s);
        msg.append("s, TTL: 300s)");
        proof {
            assert(msg@ =~= transport_expired_message(now_ms as int - issued_ms as int));
        }
        return TransportVerdict::Reject(
            TransportRejection {
                status: 401,
                error: "Invalid Caller Token".to_owned(),
                message: msg,
                code: "EXPIRED_CALLER_TOKEN".to_owned(),
            },
        );
    }
    if age_ms < -30000 {
        return TransportVerdict::Reject(
            TransportRejection {
                status: 401,
                error: "Invalid Caller Token".to_owned(),
                message: "Token issued_at is in the future".to_owned(),
                code: "INVALID_CALLER_TOKEN".to_owned(),
            },
        );
    }
    TransportVerdict::Proceed(Some(GatewayCaller { caller_id: caller_id.to_owned() }))
}

/// The transport-level caller-token check against the current wall clock.
pub fn check_caller_headers(
    secret: Option<&String>,
    caller_id: &str,
    signature: &str,
    issued_at: &str,
) -> (r: TransportVerdict)
    ensures
        exists|now_ms: int|
            #[trigger] caller_check_post(
                opt_string_view(secret),
                caller_id@,
                signature@,
                issued_at@,
                now_ms,
                r,
            ),
{
    let now = clock_now();
    let r = check_caller_headers_at(secret, caller_id, signature, issued_at, now.0);
    proof {
        assert(caller_check_post(
            opt_string_view(secret),
            caller_id@,
            signature@,
            issued_at@,
            now.0 as int,
            r,
        ));
    }
    r
}

/// What `str::trim` leaves of a string: the string with leading and trailing
/// whitespace removed. A function of the text alone.
pub uninterp spec fn trim_of(s: Seq<char>) -> Seq<char>;

/// Relies on `str::trim`: returns the string with leading and trailing
/// whitespace removed; never longer than its input, and empty input stays
/// empty.
#[verifier::external_body]
pub(crate) fn trim_str(s: &str) -> (r: String)
    ensures
        r@ == trim_of(s@),
        r@.len() <= s@.len(),
        s@.len() == 0 ==> r@.len() == 0,
{
    s.trim().to_owned()
}

/// What an optional provenance header contributes: its trimmed value, if that
/// is non-empty.
pub open spec fn trimmed_header(h: Option<Seq<char>>) -> Option<Seq<char>> {
    match h {
        Some(s) => if trim_of(s).len() > 0 {
            Some(trim_of(s))
        } else {
            None
        },
        None => None,
    }
}

/// The unconditional execution-provenance check: both identifiers must be
/// present and non-empty after trimming. On success the trimmed pair
/// (execution id, parent span id) is returned for the repo span; otherwise a
/// structured rejection says the execution context is missing.
pub fn execution_context_check(
    execution_id: Option<&String>,
    parent_span_id: Option<&String>,
) -> (r: Result<(String, String), TransportRejection>)
    ensures
        ({
            let e = trimmed_header(opt_string_view(execution_id));
            let p = trimmed_header(opt_string_view(parent_span_id));
            &&& (r is Ok <==> e is Some && p is Some)
            &&& (r matches Ok(ids) ==> e == Some(ids.0@) && p == Some(ids.1@))
            &&& (!(e is Some && p is Some) ==> (r matches Err(rej) && rej.status == 400
                && rej.error@ == "Missing Execution Context"@ && rej.message@
                == "x-execution-id and x-parent-span-id headers are required for all scan operations. This repository MUST NOT execute silently."@
                && rej.code@ == "EXECUTION_CONTEXT_REQUIRED"@))
        }),
{
    let eid: Option<String> = match execution_id {
        Some(s) => {
            let t = trim_str(s.as_str());
            if t.as_str().is_empty() {
                None
            } else {
                Some(t)
            }
        },
        None => None,
    };
    let pid: Option<String> = match parent_span_id {
        Some(s) => {
            let t = trim_str(s.as_str());
            if t.as_str().is_empty() {
                None
            } else {
                Some(t)
            }
        },
        None => None,
    };
    match (eid, pid) {
        (Some(e), Some(p)) => Ok((e, p)),
        _ => Err(
            TransportRejection {
                status: 400,
                error: "Missing Execution Context".to_owned(),
                message:
                    "x-execution-id and x-parent-span-id headers are required for all scan operations. This repository MUST NOT execute silently.".to_owned(),
                code: "EXECUTION_CONTEXT_REQUIRED".to_owned(),
            },
        ),
    }
}

/// 202 Accepted response for an inbound ingest event.
#[derive(Debug, Clone)]
pub struct IngestResponse {
    /// Always "accepted".
    pub status: String,
    /// The execution id of the accepted event, echoed back.
    pub execution_id: String,
}

/// Acknowledge an inbound ingest event: accepted, echoing its execution id.
pub fn accept_ingest(execution_id: String) -> (r: IngestResponse)
    ensures
        r.status@ == "accepted"@,
        r.execution_id == execution_id,
{
    IngestResponse { status: "accepted".to_owned(), execution_id }
}

} // verus!
