//! Binary codec for attestation documents.
//!
//! The wire form is the CBOR map defined by the AWS Nitro Secure Module
//! attestation format; the `aws_nitro_enclaves_nsm_api` crate owns that
//! encoding, and this module reaches it through two trusted wrappers related
//! by the uninterpreted parse function [`doc_parse`].

use vstd::prelude::*;

use crate::doc::{AttestError, AttestationDoc, Digest};
use aws_nitro_enclaves_nsm_api::api as nsm_api;
use serde_bytes::ByteBuf;

verus! {

/// What the NSM attestation-document CBOR decoder returns on the given
/// bytes: `Some(doc)` when they are a well-formed document encoding, `None`
/// otherwise. The result depends on the bytes alone.
pub uninterp spec fn doc_parse(bytes: Seq<u8>) -> Option<AttestationDoc>;

/// The codec's decoding decision on the given bytes: the document they
/// encode, or a malformed-document error.
pub open spec fn decode_model(bytes: Seq<u8>) -> Result<AttestationDoc, AttestError> {
    match doc_parse(bytes) {
        Option::Some(d) => Ok(d),
        Option::None => Err(AttestError::MalformedDocument),
    }
}

/// Relies on `aws_nitro_enclaves_nsm_api::api::AttestationDoc::{new, to_binary}`:
/// `to_binary` is the CBOR serializer whose inverse is `from_binary`, so the
/// bytes it produces decode back to the same document. Sorted, duplicate-free
/// PCR entries convert to the map form and back unchanged, hence the
/// well-formedness requirement.
#[verifier::external_body]
fn cbor_encode(doc: &AttestationDoc) -> (r: Vec<u8>)
    requires
        doc.wf(),
    ensures
        doc_parse(r@) == Some(*doc),
{
    let digest = match doc.digest {
        Digest::Sha256 => nsm_api::Digest::SHA256,
        Digest::Sha384 => nsm_api::Digest::SHA384,
        Digest::Sha512 => nsm_api::Digest::SHA512,
    };
    let d = nsm_api::AttestationDoc::new(
        doc.module_id.clone(), digest, doc.timestamp, doc.pcrs.iter().cloned().collect(),
        doc.certificate.clone(), doc.cabundle.clone(), doc.user_data.clone(),
        doc.nonce.clone(), doc.public_key.clone(),
    );
    d.to_binary()
}

/// Relies on `aws_nitro_enclaves_nsm_api::api::AttestationDoc::from_binary`:
/// the CBOR decoder for the attestation-document map. Decoding yields PCR
/// entries from an ordered map, so they come back sorted by strictly
/// increasing index.
#[verifier::external_body]
fn cbor_decode(bytes: &[u8]) -> (r: Option<AttestationDoc>)
    ensures
        r matches Some(d) ==> doc_parse(bytes@) == Some(d) && d.wf(),
        r is None ==> doc_parse(bytes@) is None,
{
    let d = match nsm_api::AttestationDoc::from_binary(bytes) { Ok(d) => d, Err(_) => return None };
    let digest = match d.digest {
        nsm_api::Digest::SHA256 => Digest::Sha256,
        nsm_api::Digest::SHA384 => Digest::Sha384, nsm_api::Digest::SHA512 => Digest::Sha512,
    };
    let f = |b: ByteBuf| b.into_vec();
    Some(AttestationDoc {
        module_id: d.module_id, digest, timestamp: d.timestamp,
        pcrs: d.pcrs.into_iter().map(|(i, v)| (i, f(v))).collect(),
        certificate: f(d.certificate),
        cabundle: d.cabundle.into_iter().map(f).collect(),
        public_key: d.public_key.map(f),
        user_data: d.user_data.map(f),
        nonce: d.nonce.map(f),
    })
}

impl AttestationDoc {
    /// Encode this document to its canonical CBOR form. Never fails for a
    /// well-formed document; the bytes decode back to this very document.
    pub fn to_binary(&self) -> (r: Vec<u8>)
        requires
            self.wf(),
        ensures
            doc_parse(r@) == Some(*self),
    {
        cbor_encode(self)
    }

    /// Decode a CBOR-encoded attestation document, rejecting anything the
    /// format does not admit.
    pub fn from_binary(bytes: &[u8]) -> (r: Result<AttestationDoc, AttestError>)
        ensures
            r == decode_model(bytes@),
            r matches Ok(d) ==> d.wf(),
    {
        match cbor_decode(bytes) {
            Some(d) => Ok(d),
            None => Err(AttestError::MalformedDocument),
        }
    }
}

/// Codec round trip: decoding any encoding of a well-formed document gives
/// back that very document. [`AttestationDoc::to_binary`] promises that its
/// result is such an encoding, so `from_binary(to_binary(d))` returns
/// `Ok(d)`.
pub proof fn lemma_codec_round_trip(d: AttestationDoc, bytes: Seq<u8>)
    requires
        d.wf(),
        doc_parse(bytes) == Some(d),
    ensures
        decode_model(bytes) == Ok::<AttestationDoc, AttestError>(d),
{
}

} // verus!
