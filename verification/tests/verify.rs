use coset::CborSerializable;
use p384::ecdsa::signature::Verifier;
use std::str::FromStr;
use std::time::{Duration, SystemTime, UNIX_EPOCH};

use nsm_phony::{AttestError, AttestationDoc, Digest, Pcrs};
use p384::ecdsa::{DerSignature, SigningKey};
use x509_cert::builder::{Builder, CertificateBuilder, Profile};
use x509_cert::der::Encode;
use x509_cert::name::Name;
use x509_cert::serial_number::SerialNumber;
use x509_cert::spki::SubjectPublicKeyInfoOwned;
use x509_cert::time::Validity;

const ROOT_SK: [u8; 48] = [0x11; 48];
const INT_SK: [u8; 48] = [0x22; 48];
const LEAF_SK: [u8; 48] = [0x33; 48];

fn cert_der(profile: Profile, subject: &str, serial: u32, subject_sk: &SigningKey, signer: &SigningKey) -> Vec<u8> {
    let spki = SubjectPublicKeyInfoOwned::from_key(subject_sk.verifying_key().clone()).unwrap();
    let validity = Validity::from_now(Duration::from_secs(365 * 24 * 3600)).unwrap();
    let builder = CertificateBuilder::new(
        profile,
        SerialNumber::from(serial),
        validity,
        Name::from_str(subject).unwrap(),
        spki,
        signer,
    )
    .unwrap();
    builder.build::<DerSignature>().unwrap().to_der().unwrap()
}

/// The DER certificates of a fresh chain: (root, intermediate, leaf).
fn test_chain() -> (Vec<u8>, Vec<u8>, Vec<u8>) {
    let root_sk = SigningKey::from_bytes((&ROOT_SK).into()).unwrap();
    let int_sk = SigningKey::from_bytes((&INT_SK).into()).unwrap();
    let leaf_sk = SigningKey::from_bytes((&LEAF_SK).into()).unwrap();
    let root = cert_der(Profile::Root, "CN=phony root", 1, &root_sk, &root_sk);
    let int = cert_der(
        Profile::SubCA { issuer: Name::from_str("CN=phony root").unwrap(), path_len_constraint: None },
        "CN=phony intermediate",
        2,
        &int_sk,
        &root_sk,
    );
    let leaf = cert_der(
        Profile::Leaf {
            issuer: Name::from_str("CN=phony intermediate").unwrap(),
            enable_key_agreement: false,
            enable_key_encipherment: false,
        },
        "CN=phony leaf",
        3,
        &leaf_sk,
        &int_sk,
    );
    (root, int, leaf)
}

fn now_millis() -> u64 {
    SystemTime::now().duration_since(UNIX_EPOCH).unwrap().as_millis() as u64
}

fn default_pcr_entries() -> Vec<(usize, Vec<u8>)> {
    Pcrs::default().to_entries()
}

/// The scenario document: empty module id, SHA-384, default PCRs, the given
/// end-entity certificate and intermediate, no optional fields.
fn scenario_doc(leaf: Vec<u8>, int: Vec<u8>, timestamp: u64) -> AttestationDoc {
    AttestationDoc {
        module_id: String::new(),
        digest: Digest::Sha384,
        timestamp,
        pcrs: default_pcr_entries(),
        certificate: leaf,
        cabundle: vec![int],
        public_key: None,
        user_data: None,
        nonce: None,
    }
}

#[test]
fn sign_verify_round_trip() {
    let (root, int, leaf) = test_chain();
    let time = now_millis();
    let doc = scenario_doc(leaf, int, time);
    let envelope = doc.sign(&LEAF_SK).unwrap();
    let verified = AttestationDoc::from_cose(&envelope, &root, time).unwrap();
    assert!(verified == doc);
}

#[test]
fn verify_far_future_is_chain_invalid() {
    let (root, int, leaf) = test_chain();
    let time = now_millis();
    let doc = scenario_doc(leaf, int, time);
    let envelope = doc.sign(&LEAF_SK).unwrap();
    let hundred_years_ms: u64 = 100 * 365 * 24 * 3600 * 1000;
    let r = AttestationDoc::from_cose(&envelope, &root, time + hundred_years_ms);
    assert!(r == Err(AttestError::ChainInvalid));
}

#[test]
fn verify_before_validity_is_chain_invalid() {
    let (root, int, leaf) = test_chain();
    let time = now_millis();
    let doc = scenario_doc(leaf, int, time);
    let envelope = doc.sign(&LEAF_SK).unwrap();
    let r = AttestationDoc::from_cose(&envelope, &root, time - 48 * 3600 * 1000);
    assert!(r == Err(AttestError::ChainInvalid));
}

#[test]
fn verify_wrong_root_is_chain_invalid() {
    let (_root, int, leaf) = test_chain();
    let other_sk = SigningKey::from_bytes((&[0x44u8; 48]).into()).unwrap();
    let other_root = cert_der(Profile::Root, "CN=other root", 9, &other_sk, &other_sk);
    let time = now_millis();
    let doc = scenario_doc(leaf, int, time);
    let envelope = doc.sign(&LEAF_SK).unwrap();
    let r = AttestationDoc::from_cose(&envelope, &other_root, time);
    assert!(r == Err(AttestError::ChainInvalid));
}

#[test]
fn verify_wrong_key_is_signature_invalid() {
    // Signed with a key that is not the leaf certificate's: every gate up to
    // the signature check passes, the signature check fails.
    let (root, int, leaf) = test_chain();
    let time = now_millis();
    let doc = scenario_doc(leaf, int, time);
    let envelope = doc.sign(&INT_SK).unwrap();
    let r = AttestationDoc::from_cose(&envelope, &root, time);
    assert!(r == Err(AttestError::SignatureInvalid));
}

#[test]
fn tampered_signature_is_signature_invalid() {
    let (root, int, leaf) = test_chain();
    let time = now_millis();
    let doc = scenario_doc(leaf, int, time);
    let mut envelope = doc.sign(&LEAF_SK).unwrap();
    let last = envelope.len() - 1;
    envelope[last] ^= 0x01;
    let r = AttestationDoc::from_cose(&envelope, &root, time);
    assert!(r == Err(AttestError::SignatureInvalid));
}

#[test]
fn tampered_timestamp_is_signature_invalid() {
    // Flip a byte inside the encoded timestamp: the payload still decodes
    // and the untouched certificate chain still validates, so the envelope
    // is rejected at the signature gate.
    let (root, int, leaf) = test_chain();
    let time = now_millis();
    let doc = scenario_doc(leaf, int, time);
    let envelope = doc.sign(&LEAF_SK).unwrap();
    let needle = doc.timestamp.to_be_bytes();
    let pos = envelope
        .windows(needle.len())
        .position(|w| w == needle)
        .expect("timestamp bytes present in payload");
    let mut tampered = envelope.clone();
    tampered[pos + 7] ^= 0x01;
    let r = AttestationDoc::from_cose(&tampered, &root, time);
    assert!(r == Err(AttestError::SignatureInvalid));
}

#[test]
fn any_single_byte_flip_is_rejected() {
    // Flipping any byte of the envelope must never yield an accepted
    // document other than the original.
    let (root, int, leaf) = test_chain();
    let time = now_millis();
    let doc = scenario_doc(leaf, int, time);
    let envelope = doc.sign(&LEAF_SK).unwrap();
    for i in 0..envelope.len() {
        let mut tampered = envelope.clone();
        tampered[i] ^= 0xff;
        let r = AttestationDoc::from_cose(&tampered, &root, time);
        assert!(r != Ok(doc.clone()), "flip at {} accepted", i);
    }
}

#[test]
fn garbage_envelope_is_cose_decode_error() {
    let (root, _int, _leaf) = test_chain();
    let r = AttestationDoc::from_cose(&[0x00, 0x01, 0x02], &root, now_millis());
    assert!(r == Err(AttestError::CoseDecode));
    let r = AttestationDoc::from_cose(&[], &root, now_millis());
    assert!(r == Err(AttestError::CoseDecode));
}

#[test]
fn truncated_envelope_is_cose_decode_error() {
    let (root, int, leaf) = test_chain();
    let time = now_millis();
    let doc = scenario_doc(leaf, int, time);
    let envelope = doc.sign(&LEAF_SK).unwrap();
    let r = AttestationDoc::from_cose(&envelope[..envelope.len() - 4], &root, time);
    assert!(r == Err(AttestError::CoseDecode));
}

#[test]
fn envelope_with_garbage_payload_is_malformed_document() {
    let (root, _int, _leaf) = test_chain();
    let c = coset::CoseSign1 {
        protected: coset::ProtectedHeader::default(),
        unprotected: coset::Header::default(),
        payload: Some(vec![0xde, 0xad, 0xbe, 0xef]),
        signature: vec![0x01; 96],
    };
    let bytes = c.to_vec().unwrap();
    let r = AttestationDoc::from_cose(&bytes, &root, now_millis());
    assert!(r == Err(AttestError::MalformedDocument));
}

#[test]
fn sign_rejects_invalid_key() {
    let (_root, int, leaf) = test_chain();
    let doc = scenario_doc(leaf, int, now_millis());
    // All-zero bytes are not a valid P-384 secret scalar.
    let r = doc.sign(&[0u8; 48]);
    assert!(r == Err(AttestError::InvalidSigningKey));
    // Wrong length is rejected too.
    let r = doc.sign(&[0x11u8; 47]);
    assert!(r == Err(AttestError::InvalidSigningKey));
}

#[test]
fn envelope_signature_verifies_with_independent_tools() {
    // Recompute the to-be-signed data with coset alone and check the
    // envelope signature with p384 alone: the envelope must interoperate
    // with verifiers that never touch this library.
    let (_root, int, leaf) = test_chain();
    let doc = scenario_doc(leaf, int, 777_000);
    let envelope = doc.sign(&LEAF_SK).unwrap();
    let cose = coset::CoseSign1::from_slice(&envelope).unwrap();
    let leaf_sk = SigningKey::from_bytes((&LEAF_SK).into()).unwrap();
    let vk = leaf_sk.verifying_key();
    cose.verify_signature(&[], |sig, msg| {
        let sig = p384::ecdsa::Signature::try_from(sig)?;
        vk.verify(msg, &sig)
    })
    .unwrap();
}

#[test]
fn envelope_protected_header_is_es384() {
    // The envelope's protected header must be the serialized map {1: -35}
    // (alg: ES384), and the payload must carry the document bytes.
    let (_root, int, leaf) = test_chain();
    let doc = scenario_doc(leaf, int, 12345);
    let envelope = doc.sign(&LEAF_SK).unwrap();
    let cose = coset::CoseSign1::from_slice(&envelope).unwrap();
    assert_eq!(cose.protected.original_data, Some(vec![0xa1, 0x01, 0x38, 0x22]));
    let payload = cose.payload.unwrap();
    let decoded = AttestationDoc::from_binary(&payload).unwrap();
    assert!(decoded == doc);
}
