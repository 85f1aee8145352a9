//! ECDSA P-384 signing and verification, reached through the `p384` crate.
//!
//! Keys cross this boundary as plain bytes: a signing key is the 48-byte
//! big-endian secret scalar, a verifying key the SEC1 uncompressed point
//! `04 || X || Y`. The uninterpreted names below tie the two sides together:
//! what `ecdsa_p384_sign` produces, `ecdsa_p384_verify` accepts under the
//! corresponding public key.

use vstd::prelude::*;

verus! {

/// Whether ECDSA P-384 (with SHA-384 message digest) verification accepts
/// `sig` as a signature over `msg` under the SEC1-encoded public key `vk`:
/// false also when `vk` is not a valid SEC1 point encoding or `sig` is not a
/// 96-byte `r || s` scalar pair. Deterministic in its three arguments.
pub uninterp spec fn sig_valid(vk: Seq<u8>, msg: Seq<u8>, sig: Seq<u8>) -> bool;

/// Whether `sk` encodes a valid P-384 secret scalar: exactly 48 big-endian
/// bytes whose value lies in `[1, n - 1]` for the curve order `n`.
pub uninterp spec fn p384_sk_valid(sk: Seq<u8>) -> bool;

/// The SEC1 uncompressed encoding of the public key belonging to the secret
/// scalar `sk`. Meaningful only when `p384_sk_valid(sk)` holds.
pub uninterp spec fn p384_public_of(sk: Seq<u8>) -> Seq<u8>;

/// Relies on `p384::ecdsa::SigningKey::from_bytes`, which takes exactly 48
/// bytes and fails on scalars outside `[1, n - 1]` (any other length is
/// turned away before the call), and on `signature::Signer::try_sign`
/// (RFC 6979 deterministic ECDSA; for a constructed key it does not fail, and
/// the signature it produces verifies under the key's public counterpart).
#[verifier::external_body]
pub(crate) fn ecdsa_p384_sign(sk: &[u8], msg: &Vec<u8>) -> (r: Option<Vec<u8>>)
    ensures
        r is Some <==> p384_sk_valid(sk@),
        r matches Some(sig) ==> sig_valid(p384_public_of(sk@), msg@, sig@),
{
    if sk.len() != 48 {
        return None;
    }
    let fb = p384::FieldBytes::from_slice(sk);
    let key = match p384::ecdsa::SigningKey::from_bytes(fb) { Ok(k) => k, Err(_) => return None };
    let sig: p384::ecdsa::Signature = match p384::ecdsa::signature::Signer::try_sign(&key, msg) {
        Ok(s) => s,
        Err(_) => return None,
    };
    Some(sig.to_vec())
}

/// Relies on `p384::ecdsa::VerifyingKey::from_sec1_bytes`,
/// `p384::ecdsa::Signature::try_from` and `signature::Verifier::verify`: the
/// deterministic ECDSA P-384 verification this crate's [`sig_valid`] denotes.
#[verifier::external_body]
pub(crate) fn ecdsa_p384_verify(vk: &[u8], msg: &Vec<u8>, sig: &[u8]) -> (r: bool)
    ensures
        r == sig_valid(vk@, msg@, sig@),
{
    let key = match p384::ecdsa::VerifyingKey::from_sec1_bytes(vk) { Ok(k) => k, Err(_) => return false };
    let sig = match p384::ecdsa::Signature::try_from(sig) { Ok(s) => s, Err(_) => return false };
    p384::ecdsa::signature::Verifier::verify(&key, msg, &sig).is_ok()
}

/// Relies on `p384::ecdsa::SigningKey::from_bytes`: succeeds exactly on the
/// byte strings [`p384_sk_valid`] describes.
#[verifier::external_body]
pub(crate) fn p384_sk_check(sk: &[u8]) -> (r: bool)
    ensures
        r == p384_sk_valid(sk@),
{
    sk.len() == 48 && p384::ecdsa::SigningKey::from_bytes(p384::FieldBytes::from_slice(sk)).is_ok()
}

} // verus!
