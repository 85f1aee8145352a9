//! Attestation documents for an isolated compute environment, with a mock
//! driver for development without real hardware.
//!
//! The crate builds, signs, and verifies attestation documents: a CBOR-encoded
//! statement of a machine's measured identity (its PCR values), wrapped in a
//! COSE_Sign1 envelope and bound to an X.509 certificate chain.

pub mod cert;
pub mod codec;
pub mod cose;
pub mod crypto;
pub mod doc;
pub mod pcrs;
pub mod phony;
pub mod sign;
pub mod verify;

pub use doc::{AttestError, AttestationDoc, Digest};
pub use pcrs::{Pcrs, PCR_BYTES, PCR_COUNT};
pub use phony::{FixedTime, PhonyNsm, Request, Response, TimeSource};
