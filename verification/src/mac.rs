//! Keyed message authentication for caller tokens.
//!
//! The token protocol signs the canonical payload `caller_id|issued_at` with
//! HMAC-SHA256 under a shared secret. The digest itself is an outside
//! computation; its result is given a name, `hmac_sha256`, that the token
//! contracts are stated over.

use vstd::prelude::*;

verus! {

/// The HMAC-SHA256 tag of the UTF-8 encoding of `msg`, keyed by the UTF-8
/// encoding of `key`. The tag is a function of the key and the message alone.
pub uninterp spec fn hmac_sha256(key: Seq<char>, msg: Seq<char>) -> Seq<u8>;

/// Relies on `hmac::Hmac<sha2::Sha256>` (`Mac::new_from_slice`, `update`,
/// `finalize`): computes the HMAC-SHA256 tag of `msg` under `key`. HMAC
/// accepts keys of any length; SHA-256 tags are 32 bytes.
#[verifier::external_body]
pub(crate) fn hmac_sha256_tag(key: &str, msg: &str) -> (r: Vec<u8>)
    ensures
        r@ == hmac_sha256(key@, msg@),
        r@.len() == 32,
{
    let mut mac = <hmac::Hmac<sha2::Sha256> as hmac::KeyInit>::new_from_slice(key.as_bytes())
        .expect("HMAC accepts keys of any length");
    hmac::Mac::update(&mut mac, msg.as_bytes());
    hmac::Mac::finalize(mac).into_bytes().to_vec()
}

/// Relies on `hmac::Mac::verify_slice`: compares the computed HMAC-SHA256 tag
/// of `msg` under `key` with `tag` in constant time (no byte-by-byte
/// short-circuit), succeeding exactly when they are equal.
#[verifier::external_body]
pub(crate) fn hmac_sha256_verify(key: &str, msg: &str, tag: &[u8]) -> (r: bool)
    ensures
        r == (tag@ == hmac_sha256(key@, msg@)),
{
    let mut mac = <hmac::Hmac<sha2::Sha256> as hmac::KeyInit>::new_from_slice(key.as_bytes())
        .expect("HMAC accepts keys of any length");
    hmac::Mac::update(&mut mac, msg.as_bytes());
    hmac::Mac::verify_slice(mac, tag).is_ok()
}

} // verus!
