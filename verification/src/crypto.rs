//! Trusted boundary to the cryptographic primitives and the clock.
//!
//! The HMAC and base64 results are pure functions of their inputs; they are
//! given names here rather than restated, and the callers' contracts speak
//! of those names.

use vstd::prelude::*;
use hmac::KeyInit;
use hmac::Mac;

verus! {

/// The HMAC-SHA1 tag of `msg` under `key` (both UTF-8 encoded), 20 bytes.
pub uninterp spec fn hmac_sha1_of(key: Seq<char>, msg: Seq<char>) -> Seq<u8>;

/// The standard base64 encoding (with padding) of `bytes`.
pub uninterp spec fn base64_of(bytes: Seq<u8>) -> Seq<char>;

/// Relies on hmac's `Hmac<Sha1>` (`new_from_slice`, `update`, `finalize`):
/// the tag depends on the key and message bytes alone and is 20 bytes long,
/// the output size of SHA-1; `new_from_slice` accepts keys of any length.
#[verifier::external_body]
pub fn hmac_sha1(key: &str, msg: &str) -> (r: Vec<u8>)
    ensures
        r@ == hmac_sha1_of(key@, msg@),
        r@.len() == 20,
{
    let mut mac = match hmac::Hmac::<sha1::Sha1>::new_from_slice(key.as_bytes()) {
        Ok(mac) => mac,
        Err(_) => return Vec::new(),
    };
    mac.update(msg.as_bytes());
    mac.finalize().into_bytes().to_vec()
}

/// Relies on base64's `Engine::encode` with the standard padded alphabet:
/// the encoding depends on the input bytes alone, and an empty input
/// encodes to the empty string.
#[verifier::external_body]
pub fn base64_encode(bytes: &Vec<u8>) -> (r: String)
    ensures
        r@ == base64_of(bytes@),
        bytes@.len() == 0 ==> r@.len() == 0,
{
    base64::Engine::encode(&base64::engine::general_purpose::STANDARD, bytes)
}

/// Relies on chrono's `Utc::now`: seconds since the Unix epoch, as the
/// system clock reports them; nothing is assumed of the value.
#[verifier::external_body]
pub fn unix_now() -> i64 {
    chrono::Utc::now().timestamp()
}

} // verus!
