//! The attestation document and the error kinds of this crate.

use vstd::prelude::*;

verus! {

/// The hash algorithm that produced the PCR values of a document.
#[derive(Debug, Clone, Copy, PartialEq, Eq, Structural)]
pub enum Digest {
    Sha256,
    Sha384,
    Sha512,
}

/// Everything that can go wrong while seeding PCRs, signing a document, or
/// verifying a signed envelope. Each verification gate has its own kind, and
/// a failed gate stops the verifier at that kind.
#[derive(Debug, Clone, Copy, PartialEq, Eq, Structural)]
pub enum AttestError {
    /// The COSE_Sign1 envelope itself is malformed.
    CoseDecode,
    /// The envelope payload does not decode to an attestation document.
    MalformedDocument,
    /// The document's certificate chain does not validate to the supplied
    /// root at the supplied time.
    ChainInvalid,
    /// The envelope signature does not verify under the document's own leaf
    /// certificate, or that certificate does not carry an elliptic-curve key.
    SignatureInvalid,
    /// A PCR seed value was rejected.
    InvalidSeed,
    /// The supplied signing key is not a valid P-384 secret scalar.
    InvalidSigningKey,
}

/// An attestation document: the object under protection.
///
/// `pcrs` maps register indices to digest values; entries are kept sorted by
/// strictly increasing index (see [`AttestationDoc::wf`]), mirroring an
/// ordered map. `certificate` is the DER-encoded end-entity certificate whose
/// public key signs the envelope, and `cabundle` holds the DER-encoded
/// intermediates that chain it to a root.
#[derive(Debug, Clone, PartialEq, Eq)]
pub struct AttestationDoc {
    pub module_id: String,
    pub digest: Digest,
    /// Milliseconds since the Unix epoch at creation time.
    pub timestamp: u64,
    pub pcrs: Vec<(usize, Vec<u8>)>,
    pub certificate: Vec<u8>,
    pub cabundle: Vec<Vec<u8>>,
    pub public_key: Option<Vec<u8>>,
    pub user_data: Option<Vec<u8>>,
    pub nonce: Option<Vec<u8>>,
}

impl AttestationDoc {
    /// Well-formedness: the PCR entries form a map, sorted by strictly
    /// increasing register index.
    pub open spec fn wf(self) -> bool {
        forall|i: int, j: int|
            0 <= i < j < self.pcrs@.len() ==> (#[trigger] self.pcrs@[i]).0 < (
            #[trigger] self.pcrs@[j]).0
    }
}

} // verus!
