//! Caller token creation and validation using HMAC-SHA256.
//!
//! A caller token is a short-lived signed credential: the signature is the
//! hex-encoded HMAC-SHA256 tag of the canonical payload
//! `caller_id|issued_at` under a shared secret. The token is re-validated on
//! every use; validation is a pure check parameterized by the current time
//! (`validate_at`), with a clocked convenience form (`validate`).

use vstd::prelude::*;

use crate::decimal::{append_decimal_i64, decimal_of_int};
use crate::encoding::{hex_bytes_of, hex_decode, hex_encode, hex_of, lemma_hex_roundtrip, valid_hex};
use crate::error::{is_expired_token, is_invalid_token, GatewayError};
use crate::mac::{hmac_sha256, hmac_sha256_tag, hmac_sha256_verify};
use crate::timestamp::{clock_now, parse_rfc3339_millis, rfc3339_millis};

verus! {

/// Default maximum token age, in seconds.
pub const DEFAULT_TTL_SECONDS: i64 = 300;

/// Tolerated clock skew for future-dated tokens, in milliseconds.
pub const MAX_CLOCK_SKEW_MILLIS: i64 = 30000;

/// HMAC-signed caller identity token.
/// Required for all scanning operations through the gateway.
#[derive(Debug, Clone)]
pub struct CallerToken {
    /// Unique caller identifier.
    pub caller_id: String,
    /// HMAC-SHA256 signature of `caller_id|issued_at` under the shared
    /// secret, hex-encoded.
    pub signature: String,
    /// Token creation timestamp (RFC 3339).
    pub issued_at: String,
}

/// The canonical payload that a token signs: `caller_id|issued_at`.
pub open spec fn token_payload(caller_id: Seq<char>, issued_at: Seq<char>) -> Seq<char> {
    caller_id + seq!['|'] + issued_at
}

/// The signature a correctly signed token carries.
pub open spec fn token_signature(caller_id: Seq<char>, issued_at: Seq<char>, secret: Seq<char>) -> Seq<char> {
    hex_of(hmac_sha256(secret, token_payload(caller_id, issued_at)))
}

/// The effective TTL in seconds: the override if given, else the default.
pub open spec fn ttl_of(ttl_seconds: Option<i64>) -> int {
    match ttl_seconds {
        Some(t) => t as int,
        None => DEFAULT_TTL_SECONDS as int,
    }
}

/// The outcome of checking one token against a secret, a TTL, and an instant.
/// The checks are ordered: fields first, then the signature, then the
/// timestamp.
pub enum TokenVerdict {
    /// The token is well-formed, correctly signed, and within its lifetime.
    Accept,
    /// `caller_id` is empty.
    EmptyCallerId,
    /// `signature` is empty.
    EmptySignature,
    /// `issued_at` is empty.
    EmptyIssuedAt,
    /// `signature` is not valid hex.
    SignatureNotHex,
    /// The decoded signature differs from the expected MAC.
    SignatureMismatch,
    /// `issued_at` is not a well-formed RFC 3339 timestamp.
    BadTimestamp,
    /// The token is older than the TTL.
    Expired,
    /// The token is dated more than the tolerated skew in the future.
    FutureDated,
}

/// What validating a token with the given fields at instant `now_ms`
/// decides.
pub open spec fn token_verdict(
    caller_id: Seq<char>,
    signature: Seq<char>,
    issued_at: Seq<char>,
    secret: Seq<char>,
    ttl_seconds: Option<i64>,
    now_ms: int,
) -> TokenVerdict {
    if caller_id.len() == 0 {
        TokenVerdict::EmptyCallerId
    } else if signature.len() == 0 {
        TokenVerdict::EmptySignature
    } else if issued_at.len() == 0 {
        TokenVerdict::EmptyIssuedAt
    } else if !valid_hex(signature) {
        TokenVerdict::SignatureNotHex
    } else if hex_bytes_of(signature) != hmac_sha256(secret, token_payload(caller_id, issued_at)) {
        TokenVerdict::SignatureMismatch
    } else {
        match rfc3339_millis(issued_at) {
            None => TokenVerdict::BadTimestamp,
            Some(issued_ms) => {
                let age_ms = now_ms - issued_ms;
                if age_ms > ttl_of(ttl_seconds) * 1000 {
                    TokenVerdict::Expired
                } else if age_ms < -(MAX_CLOCK_SKEW_MILLIS as int) {
                    TokenVerdict::FutureDated
                } else {
                    TokenVerdict::Accept
                }
            },
        }
    }
}

/// Truncating division by 1000 (toward zero), for rendering milliseconds as
/// whole seconds.
pub open spec fn millis_to_seconds_trunc(a: int) -> int {
    if a >= 0 {
        a / 1000
    } else {
        -((-a) / 1000)
    }
}

/// The diagnostic message of an expired-token error: the token's age and the
/// TTL it was checked against.
pub open spec fn expired_message(age_ms: int, ttl_s: int) -> Seq<char> {
    "age: "@ + decimal_of_int(millis_to_seconds_trunc(age_ms)) + "s, TTL: "@ + decimal_of_int(
        ttl_s,
    ) + "s"@
}

/// Everything `validate_at` promises, as one predicate: the result reflects
/// the verdict, and each rejection carries its fixed message and error kind.
pub open spec fn validate_post(
    t: CallerToken,
    secret: Seq<char>,
    ttl_seconds: Option<i64>,
    now_ms: int,
    r: Result<(), GatewayError>,
) -> bool {
    let v = token_verdict(t.caller_id@, t.signature@, t.issued_at@, secret, ttl_seconds, now_ms);
    &&& (r is Ok <==> v is Accept)
    &&& (v is EmptyCallerId ==> is_invalid_token(r, "caller_id is empty"@))
    &&& (v is EmptySignature ==> is_invalid_token(r, "signature is empty"@))
    &&& (v is EmptyIssuedAt ==> is_invalid_token(r, "issued_at is empty"@))
    &&& (v is SignatureNotHex ==> is_invalid_token(r, "signature is not valid hex"@))
    &&& (v is SignatureMismatch ==> is_invalid_token(r, "signature mismatch"@))
    &&& (v is BadTimestamp ==> is_invalid_token(r, "invalid issued_at timestamp"@))
    &&& (v is Expired ==> match rfc3339_millis(t.issued_at@) {
        Some(issued_ms) => is_expired_token(
            r,
            expired_message(now_ms - issued_ms, ttl_of(ttl_seconds)),
        ),
        None => false,
    })
    &&& (v is FutureDated ==> is_invalid_token(r, "issued_at is in the future"@))
}

/// Build the canonical payload `caller_id|issued_at`.
pub(crate) fn payload_string(caller_id: &str, issued_at: &str) -> (r: String)
    ensures
        r@ == token_payload(caller_id@, issued_at@),
{
    let mut s = caller_id.to_owned();
    s.append("|");
    s.append(issued_at);
    proof {
        reveal_strlit("|");
        assert(s@ =~= token_payload(caller_id@, issued_at@));
    }
    s
}

/// Compute the hex-encoded HMAC-SHA256 signature of the canonical payload.
fn compute_signature(caller_id: &str, issued_at: &str, secret: &str) -> (r: String)
    ensures
        r@ == token_signature(caller_id@, issued_at@, secret@),
        r@.len() == 64,
{
    let payload = payload_string(caller_id, issued_at);
    let tag = hmac_sha256_tag(secret, payload.as_str());
    hex_encode(tag.as_slice())
}

impl CallerToken {
    /// Create a signed token with an explicit issuance timestamp.
    ///
    /// Succeeds exactly when `caller_id` and `shared_secret` are non-empty;
    /// the token then carries the given `issued_at` and the signature of the
    /// canonical payload under the secret.
    pub fn create_at(caller_id: &str, shared_secret: &str, issued_at: &str) -> (r: Result<
        CallerToken,
        GatewayError,
    >)
        ensures
            r is Ok <==> (caller_id@.len() > 0 && shared_secret@.len() > 0),
            r matches Ok(t) ==> {
                &&& t.caller_id@ == caller_id@
                &&& t.issued_at@ == issued_at@
                &&& t.signature@ == token_signature(caller_id@, issued_at@, shared_secret@)
                &&& t.signature@.len() == 64
            },
            caller_id@.len() == 0 ==> is_invalid_token(r, "caller_id must not be empty"@),
            caller_id@.len() > 0 && shared_secret@.len() == 0 ==> is_invalid_token(
                r,
                "shared_secret must not be empty"@,
            ),
    {
        if caller_id.is_empty() {
            return Err(GatewayError::InvalidCallerToken("caller_id must not be empty".to_owned()));
        }
        if shared_secret.is_empty() {
            return Err(
                GatewayError::InvalidCallerToken("shared_secret must not be empty".to_owned()),
            );
        }
        let signature = compute_signature(caller_id, issued_at, shared_secret);
        Ok(CallerToken { caller_id: caller_id.to_owned(), signature, issued_at: issued_at.to_owned() })
    }

    /// Create a signed token issued now.
    ///
    /// Succeeds exactly when `caller_id` and `shared_secret` are non-empty;
    /// the issuance timestamp is the current wall clock in RFC 3339 form.
    pub fn create(caller_id: &str, shared_secret: &str) -> (r: Result<CallerToken, GatewayError>)
        ensures
            r is Ok <==> (caller_id@.len() > 0 && shared_secret@.len() > 0),
            r matches Ok(t) ==> {
                &&& t.caller_id@ == caller_id@
                &&& t.issued_at@.len() > 0
                &&& rfc3339_millis(t.issued_at@) is Some
                &&& t.signature@ == token_signature(caller_id@, t.issued_at@, shared_secret@)
                &&& t.signature@.len() == 64
            },
            caller_id@.len() == 0 ==> is_invalid_token(r, "caller_id must not be empty"@),
            caller_id@.len() > 0 && shared_secret@.len() == 0 ==> is_invalid_token(
                r,
                "shared_secret must not be empty"@,
            ),
    {
        let now = clock_now();
        CallerToken::create_at(caller_id, shared_secret, now.1.as_str())
    }

    /// Validate this token's fields, signature, and lifetime against an
    /// explicit instant `now_ms` (epoch milliseconds).
    ///
    /// The result reflects `token_verdict` exactly; see `validate_post`.
    pub fn validate_at(&self, shared_secret: &str, ttl_seconds: Option<i64>, now_ms: i64) -> (r:
        Result<(), GatewayError>)
        ensures
            validate_post(*self, shared_secret@, ttl_seconds, now_ms as int, r),
    {
        let ttl: i64 = match ttl_seconds {
            Some(t) => t,
            None => DEFAULT_TTL_SECONDS,
        };
        if self.caller_id.as_str().is_empty() {
            return Err(GatewayError::InvalidCallerToken("caller_id is empty".to_owned()));
        }
        if self.signature.as_str().is_empty() {
            return Err(GatewayError::InvalidCallerToken("signature is empty".to_owned()));
        }
        if self.issued_at.as_str().is_empty() {
            return Err(GatewayError::InvalidCallerToken("issued_at is empty".to_owned()));
        }

        let sig_bytes = match hex_decode(self.signature.as_str()) {
            Some(b) => b,
            None => {
                return Err(
                    GatewayError::InvalidCallerToken("signature is not valid hex".to_owned()),
                );
            },
        };

        let payload = payload_string(self.caller_id.as_str(), self.issued_at.as_str());
        if !hmac_sha256_verify(shared_secret, payload.as_str(), sig_bytes.as_slice()) {
            return Err(GatewayError::InvalidCallerToken("signature mismatch".to_owned()));
        }

        let issued_ms = match parse_rfc3339_millis(self.issued_at.as_str()) {
            Some(ms) => ms,
            None => {
                return Err(
                    GatewayError::InvalidCallerToken("invalid issued_at timestamp".to_owned()),
                );
            },
        };

        let age_ms: i128 = now_ms as i128 - issued_ms as i128;
        if age_ms > ttl as i128 * 1000 {
            let age_s: i64 = if age_ms >= 0 {
                ((age_ms as u128) / 1000) as i64
            } else {
                -((((-age_ms) as u128) / 1000) as i64)
            };
            proof {
                assert(age_s as int == millis_to_seconds_trunc(now_ms as int - issued_ms as int));
            }
            let mut msg = "age: ".to_owned();
            append_decimal_i64(&mut msg, age_s);
            msg.append("s, TTL: ");
            append_decimal_i64(&mut msg, ttl);
            msg.append("s");
            proof {
                assert(msg@ =~= expired_message(
                    now_ms as int - issued_ms as int,
                    ttl_of(ttl_seconds),
                ));
            }
            return Err(GatewayError::ExpiredCallerToken(msg));
        }

        if age_ms < -(MAX_CLOCK_SKEW_MILLIS as i128) {
            return Err(GatewayError::InvalidCallerToken("issued_at is in the future".to_owned()));
        }

        Ok(())
    }

    /// Validate this token's fields, signature, and lifetime against the
    /// current wall clock.
    ///
    /// The clock value is outside anyone's control; the result is exactly
    /// what `validate_at` decides for some instant.
    pub fn validate(&self, shared_secret: &str, ttl_seconds: Option<i64>) -> (r: Result<
        (),
        GatewayError,
    >)
        ensures
            exists|now_ms: int|
                #[trigger] validate_post(*self, shared_secret@, ttl_seconds, now_ms, r),
    {
        let now = clock_now();
        let r = self.validate_at(shared_secret, ttl_seconds, now.0);
        proof {
            assert(validate_post(*self, shared_secret@, ttl_seconds, now.0 as int, r));
        }
        r
    }
}

/// A token freshly created and checked at the instant of its own issuance is
/// accepted, for any non-negative TTL: `create` then `validate` succeeds.
pub proof fn lemma_fresh_token_validates(
    t: CallerToken,
    secret: Seq<char>,
    ttl_seconds: Option<i64>,
    now_ms: int,
)
    ensures
        (t.caller_id@.len() > 0 && t.signature@.len() > 0 && t.issued_at@.len() > 0
            && t.signature@ == token_signature(t.caller_id@, t.issued_at@, secret)
            && rfc3339_millis(t.issued_at@) == Some(now_ms) && ttl_of(ttl_seconds) >= 0)
            ==> token_verdict(t.caller_id@, t.signature@, t.issued_at@, secret, ttl_seconds, now_ms) is Accept,
{
    if t.signature@ == token_signature(t.caller_id@, t.issued_at@, secret) {
        lemma_hex_roundtrip(hmac_sha256(secret, token_payload(t.caller_id@, t.issued_at@)));
    }
}

/// Validating a token against a secret other than the one that signed it is
/// rejected as an invalid token (never as expired), whenever the two secrets'
/// MACs differ on the token's payload.
pub proof fn lemma_wrong_secret_rejected(
    t: CallerToken,
    signing_secret: Seq<char>,
    other_secret: Seq<char>,
    ttl_seconds: Option<i64>,
    now_ms: int,
)
    ensures
        (t.signature@ == token_signature(t.caller_id@, t.issued_at@, signing_secret)
            && hmac_sha256(other_secret, token_payload(t.caller_id@, t.issued_at@))
            != hmac_sha256(signing_secret, token_payload(t.caller_id@, t.issued_at@))) ==> {
            let v = token_verdict(t.caller_id@, t.signature@, t.issued_at@, other_secret, ttl_seconds, now_ms);
            !(v is Accept) && !(v is Expired)
        },
{
    if t.signature@ == token_signature(t.caller_id@, t.issued_at@, signing_secret) {
        lemma_hex_roundtrip(hmac_sha256(signing_secret, token_payload(t.caller_id@, t.issued_at@)));
    }
}

/// A correctly signed token issued 600 seconds before the check is expired
/// under a 300-second TTL, and accepted under a 900-second TTL.
pub proof fn lemma_ttl_boundary(t: CallerToken, secret: Seq<char>, now_ms: int)
    ensures
        (t.caller_id@.len() > 0 && t.signature@.len() > 0 && t.issued_at@.len() > 0
            && t.signature@ == token_signature(t.caller_id@, t.issued_at@, secret)
            && rfc3339_millis(t.issued_at@) == Some(now_ms - 600000)) ==> {
            &&& token_verdict(t.caller_id@, t.signature@, t.issued_at@, secret, Some(300i64), now_ms) is Expired
            &&& token_verdict(t.caller_id@, t.signature@, t.issued_at@, secret, Some(900i64), now_ms) is Accept
        },
{
    if t.signature@ == token_signature(t.caller_id@, t.issued_at@, secret) {
        lemma_hex_roundtrip(hmac_sha256(secret, token_payload(t.caller_id@, t.issued_at@)));
    }
}

/// A correctly signed token dated more than the tolerated clock skew in the
/// future is rejected as invalid (future-dated), not as expired, for any
/// non-negative TTL.
pub proof fn lemma_future_dated_rejected(
    t: CallerToken,
    secret: Seq<char>,
    ttl_seconds: Option<i64>,
    now_ms: int,
    issued_ms: int,
)
    ensures
        (t.caller_id@.len() > 0 && t.signature@.len() > 0 && t.issued_at@.len() > 0
            && t.signature@ == token_signature(t.caller_id@, t.issued_at@, secret)
            && rfc3339_millis(t.issued_at@) == Some(issued_ms) && issued_ms > now_ms
            + MAX_CLOCK_SKEW_MILLIS as int && ttl_of(ttl_seconds) >= 0) ==> token_verdict(
            t.caller_id@,
            t.signature@,
            t.issued_at@,
            secret,
            ttl_seconds,
            now_ms,
        ) is FutureDated,
{
    if t.signature@ == token_signature(t.caller_id@, t.issued_at@, secret) {
        lemma_hex_roundtrip(hmac_sha256(secret, token_payload(t.caller_id@, t.issued_at@)));
    }
}

} // verus!
