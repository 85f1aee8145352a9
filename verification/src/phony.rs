//! A mock attestation endpoint: answers attestation requests by building,
//! signing, and returning a document with a caller-supplied key, certificate
//! and clock, so callers can exercise the exact wire format of the real
//! hardware path without a hardware root of trust.

use vstd::prelude::*;

use crate::crypto::{p384_sk_check, p384_sk_valid};
use crate::doc::{AttestError, AttestationDoc, Digest};
use crate::pcrs::{entries_of, zero_slots, Pcrs};
use crate::sign::is_signed_envelope;

verus! {

broadcast use vstd::std_specs::vec::vec_clone_deep_view_proof;

/// A capability handing out the current logical time in milliseconds since
/// the Unix epoch. Injected into the mock endpoint at construction, so tests
/// can pin time instead of reading a clock.
pub trait TimeSource {
    fn now(&mut self) -> u64;
}

/// A time source pinned to one instant; [`TimeSource::now`] always returns
/// it.
pub struct FixedTime {
    pub millis: u64,
}

impl TimeSource for FixedTime {
    fn now(&mut self) -> u64 {
        self.millis
    }
}

/// A request to the attestation endpoint. The real hardware defines further
/// request kinds (register manipulation, capability queries); the mock
/// honours attestation and answers everything else with
/// [`Response::Unimplemented`], so those kinds are carried as
/// [`Request::Unsupported`].
#[derive(Debug, Clone, PartialEq, Eq)]
pub enum Request {
    Attestation {
        user_data: Option<Vec<u8>>,
        nonce: Option<Vec<u8>>,
        public_key: Option<Vec<u8>>,
    },
    Unsupported,
}

/// The endpoint's answer: a signed envelope for an attestation request, or a
/// refusal for a request kind the mock does not implement.
#[derive(Debug, Clone, PartialEq, Eq)]
pub enum Response {
    Attestation { document: Vec<u8> },
    Unimplemented,
}

/// The fields of the document the mock attests with: an empty module id,
/// SHA-384 digests, all-zero default register values, the configured
/// certificate and bundle, the request's optional byte strings carried
/// through unchanged, and the clock's timestamp.
pub open spec fn phony_doc_fields(
    d: AttestationDoc,
    cert: Seq<u8>,
    bundle: Seq<Seq<u8>>,
    timestamp: u64,
    user_data: Option<Seq<u8>>,
    nonce: Option<Seq<u8>>,
    public_key: Option<Seq<u8>>,
) -> bool {
    &&& d.module_id@ == Seq::<char>::empty()
    &&& d.digest == Digest::Sha384
    &&& d.timestamp == timestamp
    &&& d.pcrs.deep_view() == entries_of(zero_slots())
    &&& d.certificate@ == cert
    &&& d.cabundle.deep_view() == bundle
    &&& d.user_data.deep_view() == user_data
    &&& d.nonce.deep_view() == nonce
    &&& d.public_key.deep_view() == public_key
}

/// The mock endpoint. Configuration is captured at construction and
/// read-only afterwards: a P-384 signing key (48-byte secret scalar), the
/// DER end-entity certificate whose chain terminates at some test root, the
/// DER intermediates of that chain, and the time source.
pub struct PhonyNsm<T: TimeSource> {
    signing_key: Vec<u8>,
    end_certificate: Vec<u8>,
    ca_bundle: Vec<Vec<u8>>,
    time_source: T,
}

impl<T: TimeSource> PhonyNsm<T> {
    /// The configured signing key, as a byte string.
    pub closed spec fn key(self) -> Seq<u8> {
        self.signing_key@
    }

    /// The configured DER end-entity certificate.
    pub closed spec fn certificate(self) -> Seq<u8> {
        self.end_certificate@
    }

    /// The configured DER intermediate certificates.
    pub closed spec fn bundle(self) -> Seq<Seq<u8>> {
        self.ca_bundle.deep_view()
    }

    /// Construction keeps this: the signing key is a valid secret scalar,
    /// so signing never fails afterwards.
    pub closed spec fn wf(self) -> bool {
        p384_sk_valid(self.signing_key@)
    }

    /// Configure a mock endpoint. A structurally invalid signing key is a
    /// caller configuration error and is rejected here, once, rather than on
    /// every request.
    pub fn new(
        signing_key: Vec<u8>,
        end_certificate: Vec<u8>,
        ca_bundle: Vec<Vec<u8>>,
        time_source: T,
    ) -> (r: Result<PhonyNsm<T>, AttestError>)
        ensures
            r matches Ok(nsm) ==> {
                &&& nsm.wf()
                &&& nsm.key() == signing_key@
                &&& nsm.certificate() == end_certificate@
                &&& nsm.bundle() == ca_bundle.deep_view()
            },
            r is Ok <==> p384_sk_valid(signing_key@),
            r matches Err(e) ==> e == AttestError::InvalidSigningKey,
    {
        if !p384_sk_check(signing_key.as_slice()) {
            return Err(AttestError::InvalidSigningKey);
        }
        Ok(PhonyNsm { signing_key, end_certificate, ca_bundle, time_source })
    }

    /// Build the document this endpoint attests with at time `timestamp`:
    /// every field pinned by [`phony_doc_fields`].
    pub fn attestation_doc(
        &self,
        timestamp: u64,
        user_data: Option<Vec<u8>>,
        nonce: Option<Vec<u8>>,
        public_key: Option<Vec<u8>>,
    ) -> (d: AttestationDoc)
        ensures
            d.wf(),
            phony_doc_fields(
                d,
                self.certificate(),
                self.bundle(),
                timestamp,
                user_data.deep_view(),
                nonce.deep_view(),
                public_key.deep_view(),
            ),
    {
        let pcrs = Pcrs::default();
        let entries = pcrs.to_entries();
        let certificate = self.end_certificate.clone();
        let cabundle = self.ca_bundle.clone();
        proof {
            assert(certificate.deep_view() =~= certificate@);
            assert(self.end_certificate.deep_view() =~= self.end_certificate@);
        }
        let d = AttestationDoc {
            module_id: String::new(),
            digest: Digest::Sha384,
            timestamp,
            pcrs: entries,
            certificate,
            cabundle,
            public_key,
            user_data,
            nonce,
        };
        proof {
            assert(d.pcrs@.len() == entries_of(zero_slots()).len());
            assert forall|i: int, j: int| 0 <= i < j < d.pcrs@.len() implies (
            #[trigger] d.pcrs@[i]).0 < (#[trigger] d.pcrs@[j]).0 by {
                assert(d.pcrs.deep_view()[i] == d.pcrs@[i].deep_view());
                assert(d.pcrs.deep_view()[j] == d.pcrs@[j].deep_view());
                assert(d.pcrs.deep_view()[i] == entries_of(zero_slots())[i]);
                assert(d.pcrs.deep_view()[j] == entries_of(zero_slots())[j]);
                assert(d.pcrs@[i].0 == i as usize);
                assert(d.pcrs@[j].0 == j as usize);
            }
        }
        d
    }

    /// Answer one request. For an attestation request: build the document at
    /// the time source's instant, sign it with the configured key, and wrap
    /// the envelope in an attestation response — the configuration does not
    /// change, and a response other than an attestation is impossible. Any
    /// other request kind is answered with [`Response::Unimplemented`].
    pub fn process_request(&mut self, request: Request) -> (r: Response)
        requires
            old(self).wf(),
        ensures
            final(self).wf(),
            final(self).key() == old(self).key(),
            final(self).certificate() == old(self).certificate(),
            final(self).bundle() == old(self).bundle(),
            match request {
                Request::Attestation { user_data, nonce, public_key } => match r {
                    Response::Attestation { document } => exists|d: AttestationDoc, t: u64|
                        {
                            &&& #[trigger] phony_doc_fields(
                                d,
                                old(self).certificate(),
                                old(self).bundle(),
                                t,
                                user_data.deep_view(),
                                nonce.deep_view(),
                                public_key.deep_view(),
                            )
                            &&& is_signed_envelope(document@, d, old(self).key())
                        },
                    _ => false,
                },
                Request::Unsupported => r == Response::Unimplemented,
            },
    {
        match request {
            Request::Attestation { user_data, nonce, public_key } => {
                let t = self.time_source.now();
                let doc = self.attestation_doc(t, user_data, nonce, public_key);
                match doc.sign(self.signing_key.as_slice()) {
                    Ok(env) => Response::Attestation { document: env },
                    Err(_) => Response::Unimplemented,
                }
            },
            Request::Unsupported => Response::Unimplemented,
        }
    }
}

} // verus!
