//! Producing a signed envelope from an attestation document and a P-384
//! signing key.

use vstd::prelude::*;

use crate::codec::doc_parse;
use crate::cose::{cose_parse, es384_protected, es384_protected_bytes, tbs_of, to_be_signed};
use crate::crypto::{ecdsa_p384_sign, p384_public_of, p384_sk_valid, sig_valid};
use crate::doc::{AttestError, AttestationDoc};

verus! {

/// What [`AttestationDoc::sign`] promises of the bytes it returns: `env` is a
/// COSE_Sign1 envelope whose protected header is this crate's ES384 header,
/// whose payload is an encoding of `doc`, and whose signature verifies over
/// the envelope's to-be-signed data under the public key of `sk`.
pub open spec fn is_signed_envelope(env: Seq<u8>, doc: AttestationDoc, sk: Seq<u8>) -> bool {
    match cose_parse(env) {
        Option::Some((protected, payload, sig)) => {
            &&& protected == es384_protected()
            &&& doc_parse(payload) == Some(doc)
            &&& sig_valid(p384_public_of(sk), tbs_of(protected, payload), sig)
        },
        Option::None => false,
    }
}

impl AttestationDoc {
    /// Wrap this document in a signed envelope: encode it, build the
    /// to-be-signed structure under an empty external protection context,
    /// sign with the supplied P-384 secret scalar, and assemble the
    /// envelope. Fails exactly when the key is not a valid secret scalar —
    /// a caller configuration error, not an operational one.
    pub fn sign(&self, signing_key: &[u8]) -> (r: Result<Vec<u8>, AttestError>)
        requires
            self.wf(),
        ensures
            r matches Ok(env) ==> is_signed_envelope(env@, *self, signing_key@),
            r is Ok <==> p384_sk_valid(signing_key@),
            r matches Err(e) ==> e == AttestError::InvalidSigningKey,
    {
        let payload = self.to_binary();
        let protected = es384_protected_bytes();
        let tbs = to_be_signed(&protected, &payload);
        match ecdsa_p384_sign(signing_key, &tbs) {
            Some(sig) => Ok(crate::cose::cose_encode(&payload, &sig)),
            None => Err(AttestError::InvalidSigningKey),
        }
    }
}

} // verus!
