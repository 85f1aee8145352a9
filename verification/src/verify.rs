//! Verifying a signed envelope against a trust anchor.
//!
//! The verifier is a chain of four gates, each a hard stop on failure:
//! envelope decode, payload decode, certificate-chain validation, signature
//! verification. Structural checks run first because they are cheap; the
//! chain is checked before the signature because the signature check uses a
//! key taken from the document's own certificate, which must first be proven
//! trustworthy. [`verify_model`] is the whole decision as a spec function,
//! and [`AttestationDoc::from_cose`] returns exactly its value.

use vstd::prelude::*;

use crate::cert::{cert_ec_key, cert_public_key, chain_ok, verify_chain};
use crate::codec::doc_parse;
use crate::cose::{cose_parse, decode_envelope, tbs_of, to_be_signed};
use crate::crypto::{ecdsa_p384_verify, p384_public_of, sig_valid};
use crate::doc::{AttestError, AttestationDoc};
use crate::sign::is_signed_envelope;

verus! {

/// The verifier's decision on envelope bytes `env`, DER root certificate
/// `root`, and verification time `time_ms` (milliseconds since the Unix
/// epoch): either the document the envelope carries, or the kind of the
/// first gate that fails.
pub open spec fn verify_model(env: Seq<u8>, root: Seq<u8>, time_ms: u64) -> Result<
    AttestationDoc,
    AttestError,
> {
    match cose_parse(env) {
        Option::None => Err(AttestError::CoseDecode),
        Option::Some((protected, payload, sig)) => match doc_parse(payload) {
            Option::None => Err(AttestError::MalformedDocument),
            Option::Some(doc) => if !chain_ok(
                root,
                doc.cabundle.deep_view(),
                doc.certificate@,
                time_ms,
            ) {
                Err(AttestError::ChainInvalid)
            } else {
                match cert_ec_key(doc.certificate@) {
                    Option::None => Err(AttestError::SignatureInvalid),
                    Option::Some(vk) => if sig_valid(vk, tbs_of(protected, payload), sig) {
                        Ok(doc)
                    } else {
                        Err(AttestError::SignatureInvalid)
                    },
                }
            },
        },
    }
}

impl AttestationDoc {
    /// Verify a signed envelope and return the attestation document it
    /// carries.
    ///
    /// `root_cert` is the DER-encoded trust anchor and `time` the
    /// caller-supplied verification time in milliseconds since the Unix
    /// epoch — time is never read from a clock here, so verification is
    /// deterministic. The result is exactly [`verify_model`]: a document is
    /// returned only if the envelope and its payload decode, the document's
    /// certificate chains to `root_cert` at `time`, and the envelope
    /// signature verifies under the document's own leaf-certificate key.
    pub fn from_cose(cose_attestation_doc: &[u8], root_cert: &[u8], time: u64) -> (r: Result<
        AttestationDoc,
        AttestError,
    >)
        ensures
            r == verify_model(cose_attestation_doc@, root_cert@, time),
            r matches Ok(d) ==> d.wf(),
    {
        let parts = match decode_envelope(cose_attestation_doc) {
            Ok(p) => p,
            Err(e) => return Err(e),
        };
        let doc = match AttestationDoc::from_binary(parts.payload.as_slice()) {
            Ok(d) => d,
            Err(e) => return Err(e),
        };
        if !verify_chain(root_cert, &doc.cabundle, doc.certificate.as_slice(), time) {
            return Err(AttestError::ChainInvalid);
        }
        let vk = match cert_public_key(doc.certificate.as_slice()) {
            Some(k) => k,
            None => return Err(AttestError::SignatureInvalid),
        };
        let tbs = to_be_signed(&parts.protected, &parts.payload);
        if ecdsa_p384_verify(vk.as_slice(), &tbs, parts.signature.as_slice()) {
            Ok(doc)
        } else {
            Err(AttestError::SignatureInvalid)
        }
    }
}

/// Sign/verify round trip: a signed envelope for `doc` under key `sk` is
/// accepted, and yields exactly `doc`, at every root and time at which the
/// document's own certificate chain validates, provided the document's leaf
/// certificate carries the signing key's public counterpart.
pub proof fn lemma_sign_verify_round_trip(
    env: Seq<u8>,
    doc: AttestationDoc,
    sk: Seq<u8>,
    root: Seq<u8>,
    time_ms: u64,
)
    requires
        is_signed_envelope(env, doc, sk),
        chain_ok(root, doc.cabundle.deep_view(), doc.certificate@, time_ms),
        cert_ec_key(doc.certificate@) == Some(p384_public_of(sk)),
    ensures
        verify_model(env, root, time_ms) == Ok::<AttestationDoc, AttestError>(doc),
{
}

/// Chain sensitivity: an envelope whose document's certificate chain does
/// not validate to the supplied root at the supplied time — among else, any
/// time outside a certificate's validity window — is rejected with
/// `ChainInvalid`, whatever its signature says.
pub proof fn lemma_invalid_chain_rejected(
    env: Seq<u8>,
    root: Seq<u8>,
    time_ms: u64,
    protected: Seq<u8>,
    payload: Seq<u8>,
    sig: Seq<u8>,
    d: AttestationDoc,
)
    requires
        cose_parse(env) == Some((protected, payload, sig)),
        doc_parse(payload) == Some(d),
        !chain_ok(root, d.cabundle.deep_view(), d.certificate@, time_ms),
    ensures
        verify_model(env, root, time_ms) == Err::<AttestationDoc, AttestError>(
            AttestError::ChainInvalid,
        ),
{
}

} // verus!
