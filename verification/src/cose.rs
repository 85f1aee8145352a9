//! The signed envelope: a COSE_Sign1 structure binding a payload to an
//! ECDSA P-384 signature.
//!
//! The `coset` crate owns the envelope encoding. This module reaches it
//! through trusted wrappers related by the uninterpreted parse function
//! [`cose_parse`] and the uninterpreted to-be-signed serializer [`tbs_of`].

use vstd::prelude::*;

use coset::CborSerializable;

verus! {

/// The parts of a decoded COSE_Sign1 envelope that the protocol reads: the
/// serialized protected-header bytes, the payload, and the signature.
pub struct CoseParts {
    pub protected: Vec<u8>,
    pub payload: Vec<u8>,
    pub signature: Vec<u8>,
}

/// What decoding a COSE_Sign1 envelope returns on the given bytes:
/// `Some((protected, payload, signature))` when they are a well-formed
/// envelope with a payload present, `None` otherwise (including an envelope
/// whose payload slot is nil). The result depends on the bytes alone.
pub uninterp spec fn cose_parse(bytes: Seq<u8>) -> Option<(Seq<u8>, Seq<u8>, Seq<u8>)>;

/// The serialized COSE Sig_structure for a single-signer envelope with the
/// given protected-header bytes and payload, under an empty external
/// protection context: `["Signature1", protected, h'', payload]` in CBOR.
/// The result depends on the two byte strings alone.
pub uninterp spec fn tbs_of(protected: Seq<u8>, payload: Seq<u8>) -> Seq<u8>;

/// The serialized protected header this crate signs under: the CBOR map
/// `{1: -35}`, that is, algorithm ES384. Bytes: one-pair map `0xa1`, key `1`,
/// negative integer `-35` as `0x38 0x22`.
pub open spec fn es384_protected() -> Seq<u8> {
    seq![0xa1u8, 0x01u8, 0x38u8, 0x22u8]
}

/// The exec form of [`es384_protected`].
pub fn es384_protected_bytes() -> (r: Vec<u8>)
    ensures
        r@ == es384_protected(),
{
    let mut r: Vec<u8> = Vec::new();
    r.push(0xa1u8);
    r.push(0x01u8);
    r.push(0x38u8);
    r.push(0x22u8);
    proof {
        assert(r@ =~= es384_protected());
    }
    r
}

/// Relies on `coset::CborSerializable::from_slice` for `coset::CoseSign1`:
/// the COSE_Sign1 decoder. After decoding, the protected header carries the
/// original serialized bytes, which are handed back here so the caller can
/// rebuild the exact to-be-signed data.
#[verifier::external_body]
fn cose_decode(bytes: &[u8]) -> (r: Option<CoseParts>)
    ensures
        r matches Some(p) ==> cose_parse(bytes@) == Some(
            (p.protected@, p.payload@, p.signature@),
        ),
        r is None ==> cose_parse(bytes@) is None,
{
    let c = match coset::CoseSign1::from_slice(bytes) { Ok(c) => c, Err(_) => return None };
    let payload = match c.payload { Some(p) => p, None => return None };
    Some(CoseParts {
        protected: c.protected.original_data.unwrap_or_default(),
        payload,
        signature: c.signature,
    })
}

/// Relies on `coset::CborSerializable::to_vec` for `coset::CoseSign1`: the
/// COSE_Sign1 serializer, the inverse of `from_slice`. The protected header
/// `{alg: ES384}` serializes to the bytes of [`es384_protected`], and
/// decoding the produced envelope yields those header bytes, the payload and
/// the signature unchanged.
#[verifier::external_body]
pub(crate) fn cose_encode(payload: &Vec<u8>, signature: &Vec<u8>) -> (r: Vec<u8>)
    ensures
        cose_parse(r@) == Some((es384_protected(), payload@, signature@)),
{
    let c = coset::CoseSign1 {
        protected: coset::ProtectedHeader {
            original_data: None,
            header: coset::HeaderBuilder::new().algorithm(coset::iana::Algorithm::ES384).build(),
        },
        unprotected: coset::Header::default(),
        payload: Some(payload.clone()),
        signature: signature.clone(),
    };
    c.to_vec().unwrap()
}

/// Relies on `coset::sig_structure_data`: serializes the Sig_structure for a
/// `CoseSign1` context with the given protected bytes (carried as original
/// data), no signer-protected header, an empty external AAD, and the payload.
#[verifier::external_body]
fn sig_tbs(protected: &Vec<u8>, payload: &Vec<u8>) -> (r: Vec<u8>)
    ensures
        r@ == tbs_of(protected@, payload@),
{
    let ph = coset::ProtectedHeader {
        original_data: Some(protected.clone()),
        header: coset::Header::default(),
    };
    coset::sig_structure_data(coset::SignatureContext::CoseSign1, ph, None, &[], payload)
}

/// Decode a COSE_Sign1 envelope into its parts, or report that the envelope
/// is malformed.
pub(crate) fn decode_envelope(bytes: &[u8]) -> (r: Result<CoseParts, crate::doc::AttestError>)
    ensures
        r matches Ok(p) ==> cose_parse(bytes@) == Some((p.protected@, p.payload@, p.signature@)),
        r matches Err(e) ==> cose_parse(bytes@) is None && e == crate::doc::AttestError::CoseDecode,
{
    match cose_decode(bytes) {
        Some(p) => Ok(p),
        None => Err(crate::doc::AttestError::CoseDecode),
    }
}

/// Build the to-be-signed bytes for the given envelope parts.
pub(crate) fn to_be_signed(protected: &Vec<u8>, payload: &Vec<u8>) -> (r: Vec<u8>)
    ensures
        r@ == tbs_of(protected@, payload@),
{
    sig_tbs(protected, payload)
}

} // verus!
