use avb::cert::{
    cert_generate_unlock_challenge, cert_validate_unlock_credential,
    cert_validate_vbmeta_public_key, certificate_signed_data_bytes, make_unlock_challenge,
    permanent_attributes_bytes, unlock_challenge_bytes, CertCertificate, CertOps,
    CertPermanentAttributes, CertUnlockChallenge, CertUnlockCredential, CERT_PIK_VERSION_LOCATION,
    CERT_PSK_VERSION_LOCATION, CERT_PUBLIC_KEY_SIZE, CERT_SIGNATURE_SIZE,
    CERT_UNLOCK_CHALLENGE_RANDOM_SIZE, CERT_USAGE_SIGNING, CERT_USAGE_UNLOCK,
    CERT_VBMETA_PUBLIC_KEY_METADATA_SIZE,
};
use avb::error::{IoError, IoResult};

/// Deterministic stand-in for the device's hashing primitive.
fn fake_sha256(data: &[u8]) -> Vec<u8> {
    let mut digest = vec![0u8; 32];
    digest[0] = data.len() as u8;
    digest[1] = (data.len() >> 8) as u8;
    for (i, byte) in data.iter().enumerate() {
        let slot = i % 32;
        digest[slot] = digest[slot].wrapping_mul(31).wrapping_add(*byte).rotate_left(3);
    }
    digest
}

/// A "signature" the fake provider accepts: the digest of key and message,
/// padded to the fixed signature size.
fn fake_sign(public_key: &[u8], message: &[u8]) -> Vec<u8> {
    let mut keyed = public_key.to_vec();
    keyed.extend_from_slice(message);
    let mut signature = fake_sha256(&keyed);
    signature.resize(CERT_SIGNATURE_SIZE, 0);
    signature
}

struct TestOps {
    attrs: CertPermanentAttributes,
    attrs_hash: Vec<u8>,
    pik_committed_version: u64,
    psk_committed_version: u64,
    fail_attrs: bool,
    fail_hash: bool,
    random_error: Option<IoError>,
    set_calls: Vec<(usize, u64)>,
}

impl CertOps for TestOps {
    fn read_permanent_attributes(&mut self) -> IoResult<CertPermanentAttributes> {
        if self.fail_attrs {
            Err(IoError::Io)
        } else {
            Ok(self.attrs.clone())
        }
    }

    fn read_permanent_attributes_hash(&mut self) -> IoResult<Vec<u8>> {
        if self.fail_hash {
            Err(IoError::Io)
        } else {
            Ok(self.attrs_hash.clone())
        }
    }

    fn read_rollback_index(&mut self, rollback_index_location: usize) -> IoResult<u64> {
        if rollback_index_location == CERT_PIK_VERSION_LOCATION {
            Ok(self.pik_committed_version)
        } else if rollback_index_location == CERT_PSK_VERSION_LOCATION {
            Ok(self.psk_committed_version)
        } else {
            Err(IoError::Io)
        }
    }

    fn set_key_version(&mut self, rollback_index_location: usize, key_version: u64) {
        self.set_calls.push((rollback_index_location, key_version));
    }

    fn get_random(&mut self, count: usize) -> IoResult<Vec<u8>> {
        match self.random_error {
            Some(e) => Err(e),
            None => Ok(vec![0xAB; count]),
        }
    }

    fn sha256(&mut self, data: &[u8]) -> Vec<u8> {
        fake_sha256(data)
    }

    fn verify_signature(&mut self, public_key: &[u8], message: &[u8], signature: &[u8]) -> bool {
        signature == fake_sign(public_key, message).as_slice()
    }
}

fn test_attrs() -> CertPermanentAttributes {
    CertPermanentAttributes {
        version: 1,
        product_root_public_key: vec![0x11; CERT_PUBLIC_KEY_SIZE],
        product_id: vec![0x22; 16],
    }
}

fn test_ops() -> TestOps {
    let attrs = test_attrs();
    let attrs_hash = fake_sha256(&permanent_attributes_bytes(&attrs));
    TestOps {
        attrs,
        attrs_hash,
        pik_committed_version: 3,
        psk_committed_version: 5,
        fail_attrs: false,
        fail_hash: false,
        random_error: None,
        set_calls: Vec::new(),
    }
}

/// A certificate over `public_key`, signed with the fake provider under
/// `signer_public_key`.
fn make_certificate(
    public_key: Vec<u8>,
    subject: Vec<u8>,
    usage: Vec<u8>,
    key_version: u64,
    signer_public_key: &[u8],
) -> CertCertificate {
    let mut certificate = CertCertificate {
        version: 1,
        public_key,
        subject,
        usage,
        key_version,
        signature: vec![0; CERT_SIGNATURE_SIZE],
    };
    certificate.signature =
        fake_sign(signer_public_key, &certificate_signed_data_bytes(&certificate));
    certificate
}

fn serialize_certificate(certificate: &CertCertificate) -> Vec<u8> {
    let mut out = certificate_signed_data_bytes(certificate);
    out.extend_from_slice(&certificate.signature);
    out
}

/// Metadata carrying a PIK and a PSK certificate chaining `vbmeta_key` to the
/// trust root of `attrs`.
fn make_metadata(attrs: &CertPermanentAttributes, vbmeta_key: &[u8]) -> (Vec<u8>, u64, u64) {
    let pik_public_key = vec![0x33; CERT_PUBLIC_KEY_SIZE];
    let pik = make_certificate(
        pik_public_key.clone(),
        vec![0x44; 32],
        vec![0x99; 32],
        4,
        &attrs.product_root_public_key,
    );
    let psk = make_certificate(
        vec![0x55; CERT_PUBLIC_KEY_SIZE],
        fake_sha256(vbmeta_key),
        fake_sha256(CERT_USAGE_SIGNING.as_bytes()),
        6,
        &pik_public_key,
    );
    let mut metadata = vec![0u8, 0, 0, 1];
    metadata.extend_from_slice(&serialize_certificate(&pik));
    metadata.extend_from_slice(&serialize_certificate(&psk));
    (metadata, pik.key_version, psk.key_version)
}

#[test]
fn validate_vbmeta_public_key_accepts_good_chain() {
    let mut ops = test_ops();
    let vbmeta_key = vec![0x66; CERT_PUBLIC_KEY_SIZE];
    let (metadata, pik_version, psk_version) = make_metadata(&ops.attrs.clone(), &vbmeta_key);
    assert_eq!(metadata.len(), CERT_VBMETA_PUBLIC_KEY_METADATA_SIZE);
    let trusted = cert_validate_vbmeta_public_key(&mut ops, &vbmeta_key, Some(&metadata));
    assert_eq!(trusted, Ok(true));
    assert_eq!(
        ops.set_calls,
        vec![
            (CERT_PIK_VERSION_LOCATION, pik_version),
            (CERT_PSK_VERSION_LOCATION, psk_version)
        ]
    );
}

#[test]
fn validate_vbmeta_public_key_rejects_missing_metadata() {
    let mut ops = test_ops();
    let vbmeta_key = vec![0x66; CERT_PUBLIC_KEY_SIZE];
    assert_eq!(cert_validate_vbmeta_public_key(&mut ops, &vbmeta_key, None), Ok(false));
    assert!(ops.set_calls.is_empty());
}

#[test]
fn validate_vbmeta_public_key_rejects_malformed_metadata() {
    let mut ops = test_ops();
    let vbmeta_key = vec![0x66; CERT_PUBLIC_KEY_SIZE];
    let (mut metadata, _, _) = make_metadata(&ops.attrs.clone(), &vbmeta_key);
    metadata.pop();
    assert_eq!(
        cert_validate_vbmeta_public_key(&mut ops, &vbmeta_key, Some(&metadata)),
        Ok(false)
    );
}

#[test]
fn validate_vbmeta_public_key_rejects_bad_signature() {
    let mut ops = test_ops();
    let vbmeta_key = vec![0x66; CERT_PUBLIC_KEY_SIZE];
    let (mut metadata, _, _) = make_metadata(&ops.attrs.clone(), &vbmeta_key);
    // Corrupt one byte of the PSK certificate's signature.
    let last = metadata.len() - 1;
    metadata[last] ^= 0x01;
    assert_eq!(
        cert_validate_vbmeta_public_key(&mut ops, &vbmeta_key, Some(&metadata)),
        Ok(false)
    );
    assert!(ops.set_calls.is_empty());
}

#[test]
fn validate_vbmeta_public_key_rejects_wrong_key() {
    let mut ops = test_ops();
    let vbmeta_key = vec![0x66; CERT_PUBLIC_KEY_SIZE];
    let (metadata, _, _) = make_metadata(&ops.attrs.clone(), &vbmeta_key);
    let other_key = vec![0x67; CERT_PUBLIC_KEY_SIZE];
    assert_eq!(
        cert_validate_vbmeta_public_key(&mut ops, &other_key, Some(&metadata)),
        Ok(false)
    );
}

#[test]
fn validate_vbmeta_public_key_rejects_downgraded_key_version() {
    let mut ops = test_ops();
    // The committed PSK version is newer than the certificate's.
    ops.psk_committed_version = 100;
    let vbmeta_key = vec![0x66; CERT_PUBLIC_KEY_SIZE];
    let (metadata, _, _) = make_metadata(&ops.attrs.clone(), &vbmeta_key);
    assert_eq!(
        cert_validate_vbmeta_public_key(&mut ops, &vbmeta_key, Some(&metadata)),
        Ok(false)
    );
    assert!(ops.set_calls.is_empty());
}

#[test]
fn validate_vbmeta_public_key_rejects_corrupt_attributes() {
    let mut ops = test_ops();
    ops.attrs_hash[0] ^= 0x01;
    let vbmeta_key = vec![0x66; CERT_PUBLIC_KEY_SIZE];
    let (metadata, _, _) = make_metadata(&ops.attrs.clone(), &vbmeta_key);
    assert_eq!(
        cert_validate_vbmeta_public_key(&mut ops, &vbmeta_key, Some(&metadata)),
        Ok(false)
    );
}

#[test]
fn validate_vbmeta_public_key_propagates_read_failure() {
    let mut ops = test_ops();
    ops.fail_attrs = true;
    let vbmeta_key = vec![0x66; CERT_PUBLIC_KEY_SIZE];
    let (metadata, _, _) = make_metadata(&test_attrs(), &vbmeta_key);
    assert_eq!(
        cert_validate_vbmeta_public_key(&mut ops, &vbmeta_key, Some(&metadata)),
        Err(IoError::Io)
    );
}

#[test]
fn generate_unlock_challenge_success() {
    let mut ops = test_ops();
    let challenge = cert_generate_unlock_challenge(&mut ops).unwrap();
    assert_eq!(challenge.version, 1);
    assert_eq!(challenge.product_id_hash, fake_sha256(&ops.attrs.product_id));
    assert_eq!(challenge.challenge, vec![0xAB; CERT_UNLOCK_CHALLENGE_RANDOM_SIZE]);
}

#[test]
fn make_unlock_challenge_takes_components_verbatim() {
    let challenge = make_unlock_challenge(vec![0x01; 32], vec![0x02; 16]);
    assert_eq!(challenge.version, 1);
    assert_eq!(challenge.product_id_hash, vec![0x01; 32]);
    assert_eq!(challenge.challenge, vec![0x02; 16]);
}

#[test]
fn distinct_random_bytes_give_distinct_challenges() {
    let first = make_unlock_challenge(vec![0x01; 32], vec![0x02; 16]);
    let second = make_unlock_challenge(vec![0x01; 32], vec![0x03; 16]);
    assert_ne!(first, second);
}

#[test]
fn generate_unlock_challenge_without_randomness_fails() {
    let mut ops = test_ops();
    ops.random_error = Some(IoError::NotImplemented);
    assert_eq!(cert_generate_unlock_challenge(&mut ops), Err(IoError::NotImplemented));
}

#[test]
fn generate_unlock_challenge_propagates_read_failure() {
    let mut ops = test_ops();
    ops.fail_attrs = true;
    assert_eq!(cert_generate_unlock_challenge(&mut ops), Err(IoError::Io));
}

/// A credential answering `challenge`, properly signed under the fake
/// provider for the device of `attrs`.
fn make_credential(attrs: &CertPermanentAttributes, challenge: CertUnlockChallenge) -> CertUnlockCredential {
    let pik_public_key = vec![0x33; CERT_PUBLIC_KEY_SIZE];
    let puk_public_key = vec![0x77; CERT_PUBLIC_KEY_SIZE];
    let intermediate_key_certificate = make_certificate(
        pik_public_key.clone(),
        vec![0x44; 32],
        vec![0x99; 32],
        4,
        &attrs.product_root_public_key,
    );
    let unlock_key_certificate = make_certificate(
        puk_public_key.clone(),
        vec![0x88; 32],
        fake_sha256(CERT_USAGE_UNLOCK.as_bytes()),
        2,
        &pik_public_key,
    );
    let challenge_signature = fake_sign(&puk_public_key, &unlock_challenge_bytes(&challenge));
    CertUnlockCredential {
        version: 1,
        intermediate_key_certificate,
        unlock_key_certificate,
        challenge,
        challenge_signature,
    }
}

#[test]
fn validate_unlock_credential_accepts_good_credential() {
    let mut ops = test_ops();
    let challenge = cert_generate_unlock_challenge(&mut ops).unwrap();
    let credential = make_credential(&ops.attrs.clone(), challenge);
    assert_eq!(cert_validate_unlock_credential(&mut ops, &credential), Ok(true));
}

#[test]
fn validate_unlock_credential_rejects_wrong_signature() {
    let mut ops = test_ops();
    let challenge = cert_generate_unlock_challenge(&mut ops).unwrap();
    let mut credential = make_credential(&ops.attrs.clone(), challenge);
    credential.challenge_signature[0] ^= 0x01;
    // Wrongly signed is a determinate "false", not an error.
    assert_eq!(cert_validate_unlock_credential(&mut ops, &credential), Ok(false));
}

#[test]
fn validate_unlock_credential_rejects_other_devices_challenge() {
    let mut ops = test_ops();
    let mut challenge = cert_generate_unlock_challenge(&mut ops).unwrap();
    challenge.product_id_hash[0] ^= 0x01;
    let credential = make_credential(&ops.attrs.clone(), challenge);
    assert_eq!(cert_validate_unlock_credential(&mut ops, &credential), Ok(false));
}

#[test]
fn validate_unlock_credential_rejects_downgraded_intermediate_key() {
    let mut ops = test_ops();
    ops.pik_committed_version = 100;
    let challenge = cert_generate_unlock_challenge(&mut ops).unwrap();
    let credential = make_credential(&ops.attrs.clone(), challenge);
    assert_eq!(cert_validate_unlock_credential(&mut ops, &credential), Ok(false));
}

#[test]
fn validate_unlock_credential_rejects_signing_key_credential() {
    // A certificate issued for image signing (the PSK's), presented as the
    // unlock key: properly PIK-signed, challenge properly signed with its
    // key, but carrying the signing role, not the unlock role.
    let mut ops = test_ops();
    let challenge = cert_generate_unlock_challenge(&mut ops).unwrap();
    let pik_public_key = vec![0x33; CERT_PUBLIC_KEY_SIZE];
    let psk_public_key = vec![0x55; CERT_PUBLIC_KEY_SIZE];
    let intermediate_key_certificate = make_certificate(
        pik_public_key.clone(),
        vec![0x44; 32],
        vec![0x99; 32],
        4,
        &ops.attrs.product_root_public_key,
    );
    let signing_key_certificate = make_certificate(
        psk_public_key.clone(),
        vec![0x88; 32],
        fake_sha256(CERT_USAGE_SIGNING.as_bytes()),
        6,
        &pik_public_key,
    );
    let challenge_signature = fake_sign(&psk_public_key, &unlock_challenge_bytes(&challenge));
    let credential = CertUnlockCredential {
        version: 1,
        intermediate_key_certificate,
        unlock_key_certificate: signing_key_certificate,
        challenge,
        challenge_signature,
    };
    assert_eq!(cert_validate_unlock_credential(&mut ops, &credential), Ok(false));
}

#[test]
fn validate_vbmeta_public_key_rejects_unlock_key() {
    // A certificate issued for unlock (the PUK's), presented as the vbmeta
    // signing key: properly PIK-signed with a matching subject, but carrying
    // the unlock role, not the image-signing role.
    let mut ops = test_ops();
    let vbmeta_key = vec![0x77; CERT_PUBLIC_KEY_SIZE];
    let pik_public_key = vec![0x33; CERT_PUBLIC_KEY_SIZE];
    let pik = make_certificate(
        pik_public_key.clone(),
        vec![0x44; 32],
        vec![0x99; 32],
        4,
        &ops.attrs.product_root_public_key,
    );
    let puk = make_certificate(
        vbmeta_key.clone(),
        fake_sha256(&vbmeta_key),
        fake_sha256(CERT_USAGE_UNLOCK.as_bytes()),
        6,
        &pik_public_key,
    );
    let mut metadata = vec![0u8, 0, 0, 1];
    metadata.extend_from_slice(&serialize_certificate(&pik));
    metadata.extend_from_slice(&serialize_certificate(&puk));
    assert_eq!(
        cert_validate_vbmeta_public_key(&mut ops, &vbmeta_key, Some(&metadata)),
        Ok(false)
    );
    assert!(ops.set_calls.is_empty());
}

#[test]
fn validate_unlock_credential_propagates_read_failure() {
    let mut ops = test_ops();
    let challenge = cert_generate_unlock_challenge(&mut ops).unwrap();
    let credential = make_credential(&ops.attrs.clone(), challenge);
    ops.fail_hash = true;
    assert_eq!(cert_validate_unlock_credential(&mut ops, &credential), Err(IoError::Io));
}
