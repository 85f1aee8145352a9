//! Certificate-chain validation and leaf-key extraction.
//!
//! Chain building and path validation are consumed from `rustls-webpki`
//! through a narrow boundary, never re-implemented here: the library only
//! depends on [`chain_ok`], the yes/no answer for a root, a set of
//! intermediates, an end-entity certificate and a point in time. Parsing the
//! leaf certificate's public key is consumed from `x509-cert` the same way.

use vstd::prelude::*;

use rustls_pki_types::{CertificateDer, UnixTime};
use x509_cert::der::Decode;

verus! {

/// Whether the end-entity certificate `end` chains to the root certificate
/// `root` through zero or more of the `intermediates` (all DER encoded),
/// with every certificate's validity window containing `time_ms`
/// (milliseconds since the Unix epoch) and every link's signature valid
/// under ECDSA P-384 with SHA-384. False also when any input fails to parse.
/// Deterministic in its arguments; no revocation checking.
pub uninterp spec fn chain_ok(
    root: Seq<u8>,
    intermediates: Seq<Seq<u8>>,
    end: Seq<u8>,
    time_ms: u64,
) -> bool;

/// The elliptic-curve public key of a DER-encoded X.509 certificate:
/// `Some(k)` where `k` is the subject-public-key bit string, when the
/// certificate parses and its subject-public-key-info algorithm is
/// id-ecPublicKey; `None` otherwise.
pub uninterp spec fn cert_ec_key(cert: Seq<u8>) -> Option<Seq<u8>>;

/// Relies on `webpki::anchor_from_trusted_cert`, `webpki::EndEntityCert::try_from`
/// and `webpki::EndEntityCert::verify_for_usage`: builds and validates a path
/// from `end` through `intermediates` to `root` at `time_ms`, accepting
/// ECDSA P-384/SHA-384 link signatures, extended key usage
/// required-if-present, and no revocation list.
#[verifier::external_body]
pub(crate) fn verify_chain(
    root: &[u8],
    intermediates: &Vec<Vec<u8>>,
    end: &[u8],
    time_ms: u64,
) -> (r: bool)
    ensures
        r == chain_ok(root@, intermediates.deep_view(), end@, time_ms),
{
    let end_der = CertificateDer::from(end);
    let ee = match webpki::EndEntityCert::try_from(&end_der) { Ok(c) => c, Err(_) => return false };
    let root_der = CertificateDer::from(root);
    let anchor = match webpki::anchor_from_trusted_cert(&root_der) { Ok(a) => a, Err(_) => return false };
    let inters: Vec<CertificateDer> =
        intermediates.iter().map(|c| CertificateDer::from(c.as_slice())).collect();
    let time = UnixTime::since_unix_epoch(core::time::Duration::from_millis(time_ms));
    ee.verify_for_usage(
        &[webpki::ring::ECDSA_P384_SHA384], &[anchor], &inters, time,
        webpki::KeyUsage::server_auth(), None, None,
    ).is_ok()
}

/// Relies on `x509_cert::Certificate::from_der`,
/// `spki::AlgorithmIdentifier::assert_algorithm_oid` and
/// `der::asn1::BitString::as_bytes`: parses the certificate, checks that its
/// subject public key is declared id-ecPublicKey, and hands the raw key
/// bytes out.
#[verifier::external_body]
pub(crate) fn cert_public_key(cert: &[u8]) -> (r: Option<Vec<u8>>)
    ensures
        r matches Some(vk) ==> cert_ec_key(cert@) == Some(vk@),
        r is None ==> cert_ec_key(cert@) is None,
{
    let c = match x509_cert::Certificate::from_der(cert) { Ok(c) => c, Err(_) => return None };
    let spki = c.tbs_certificate.subject_public_key_info;
    let oid = x509_cert::der::oid::db::rfc5912::ID_EC_PUBLIC_KEY;
    if spki.algorithm.assert_algorithm_oid(oid).is_err() {
        return None;
    }
    spki.subject_public_key.as_bytes().map(|b| b.to_vec())
}

} // verus!
