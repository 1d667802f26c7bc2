//! Computing the signature of a request body: an HMAC-SHA-256 digest of the
//! body keyed by the shared secret, encoded with the standard base64 alphabet
//! with padding.

use vstd::prelude::*;

verus! {

use crate::compare::constant_time_eq;

/// The HMAC-SHA-256 digest of `msg` keyed by `key`: a function of the two
/// arguments alone.
pub uninterp spec fn hmac_sha256_of(key: Seq<u8>, msg: Seq<u8>) -> Seq<u8>;

/// The base64 encoding of `bytes` in the standard alphabet with padding: a
/// function of `bytes` alone.
pub uninterp spec fn base64_standard_of(bytes: Seq<u8>) -> Seq<char>;

/// Relies on `hmac::Hmac::<sha2::Sha256>` (`new_from_slice`, `update`,
/// `finalize`): the HMAC-SHA-256 digest of `msg` under `key`, 32 bytes long.
/// `new_from_slice` accepts keys of any length, so it cannot fail here.
#[verifier::external_body]
fn hmac_sha256(key: &[u8], msg: &[u8]) -> (digest: Vec<u8>)
    ensures
        digest@ == hmac_sha256_of(key@, msg@),
        digest@.len() == 32,
{
    let mut mac = <hmac::Hmac<sha2::Sha256> as hmac::Mac>::new_from_slice(key)
        .expect("HMAC accepts keys of any length");
    hmac::Mac::update(&mut mac, msg);
    hmac::Mac::finalize(mac).into_bytes().to_vec()
}

/// Relies on `base64::engine::general_purpose::STANDARD.encode`: the standard
/// alphabet with padding, so the output is 4 characters for every 3 input
/// bytes, rounded up. The length bound keeps the encoded size within `usize`.
#[verifier::external_body]
fn base64_encode(bytes: &[u8]) -> (encoded: String)
    requires
        bytes@.len() <= usize::MAX / 4,
    ensures
        encoded@ == base64_standard_of(bytes@),
        encoded@.len() == 4 * ((bytes@.len() + 2) / 3),
{
    base64::engine::Engine::encode(&base64::engine::general_purpose::STANDARD, bytes)
}

/// The signature of `body` under `secret`: the base64 encoding of the
/// HMAC-SHA-256 digest of `body` keyed by `secret`.
pub open spec fn signature_of(secret: Seq<u8>, body: Seq<u8>) -> Seq<char> {
    base64_standard_of(hmac_sha256_of(secret, body))
}

/// Computes the signature of `body` under `secret`. Defined for every secret
/// and body, the empty body included.
pub fn compute_signature(secret: &[u8], body: &[u8]) -> (sig: String)
    ensures
        sig@ == signature_of(secret@, body@),
        sig@.len() == 44,
{
    let digest = hmac_sha256(secret, body);
    base64_encode(digest.as_slice())
}

/// Whether `supplied` is the signature of `body` under `secret`.
pub open spec fn spec_verify(secret: Seq<u8>, body: Seq<u8>, supplied: Seq<char>) -> bool {
    supplied == signature_of(secret, body)
}

/// Reports whether `supplied` equals the signature of `body` under `secret`.
/// The comparison runs over the full length of both strings whatever the
/// position of the first mismatch.
pub fn verify(secret: &[u8], body: &[u8], supplied: &str) -> (ok: bool)
    ensures
        ok == spec_verify(secret@, body@, supplied@),
{
    let expected = compute_signature(secret, body);
    let ok = constant_time_eq(expected.as_str().as_bytes(), supplied.as_bytes());
    proof {
        vstd::utf8::encode_utf8_decode_utf8(expected@);
        vstd::utf8::encode_utf8_decode_utf8(supplied@);
    }
    ok
}

/// The signature is deterministic: equal secrets and equal bodies always
/// yield equal signatures.
pub proof fn lemma_signature_deterministic(s1: Seq<u8>, b1: Seq<u8>, s2: Seq<u8>, b2: Seq<u8>)
    requires
        s1 == s2,
        b1 == b2,
    ensures
        signature_of(s1, b1) == signature_of(s2, b2),
{
}

/// A signature computed over a secret and a body verifies against that same
/// secret and body.
pub proof fn lemma_round_trip_acceptance(secret: Seq<u8>, body: Seq<u8>)
    ensures
        spec_verify(secret, body, signature_of(secret, body)),
{
}

/// Any supplied value other than the signature of `body` under `secret` is
/// rejected.
pub proof fn lemma_tamper_rejection(secret: Seq<u8>, body: Seq<u8>, supplied: Seq<char>)
    requires
        supplied != signature_of(secret, body),
    ensures
        !spec_verify(secret, body, supplied),
{
}

} // verus!
