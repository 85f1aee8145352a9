use nsm_phony::{AttestError, AttestationDoc, Digest};

fn sample_doc() -> AttestationDoc {
    AttestationDoc {
        module_id: String::from("i-1234-enc5678"),
        digest: Digest::Sha384,
        timestamp: 1_700_000_000_000,
        pcrs: vec![(0, vec![0u8; 48]), (1, vec![0xabu8; 48]), (4, vec![7u8; 48])],
        certificate: vec![1, 2, 3, 4],
        cabundle: vec![vec![5, 6], vec![7, 8, 9]],
        public_key: Some(vec![0xaa, 0xbb]),
        user_data: None,
        nonce: Some(vec![]),
    }
}

#[test]
fn codec_round_trip() {
    let d = sample_doc();
    let bytes = d.to_binary();
    let back = AttestationDoc::from_binary(&bytes).unwrap();
    assert!(back == d);
}

#[test]
fn codec_round_trip_minimal() {
    let d = AttestationDoc {
        module_id: String::new(),
        digest: Digest::Sha384,
        timestamp: 0,
        pcrs: vec![],
        certificate: vec![],
        cabundle: vec![],
        public_key: None,
        user_data: None,
        nonce: None,
    };
    let bytes = d.to_binary();
    let back = AttestationDoc::from_binary(&bytes).unwrap();
    assert!(back == d);
}

#[test]
fn decode_rejects_garbage() {
    let r = AttestationDoc::from_binary(&[0xff, 0x00, 0x17]);
    assert!(r == Err(AttestError::MalformedDocument));
    let r = AttestationDoc::from_binary(&[]);
    assert!(r == Err(AttestError::MalformedDocument));
}

#[test]
fn decode_rejects_truncated() {
    let d = sample_doc();
    let bytes = d.to_binary();
    let r = AttestationDoc::from_binary(&bytes[..bytes.len() - 1]);
    assert!(r == Err(AttestError::MalformedDocument));
}
