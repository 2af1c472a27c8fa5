//! Rotateable signing-key hierarchy and authenticated unlock.
//!
//! The key hierarchy is anchored in the device's permanent attributes: the
//! product root key (PRK, never rotated) signs the product intermediate key
//! (PIK); the PIK signs the product signing key (PSK) and the product unlock
//! key (PUK). PIK and PSK versions are tracked as rollback values in two
//! reserved index locations, so a rotated-away key can no longer be accepted.
//! The PUK is a distinct key, and every certificate names its key's role in
//! a usage digest that each validator checks, so possession of unlock
//! authority never grants image-signing authority and vice versa.
//!
//! All device state and all cryptography live behind the [`CertOps`] callback
//! surface that the hosting device implements. The trust decisions
//! themselves are pure verified functions over plain values
//! ([`evaluate_key_hierarchy`], [`evaluate_unlock_credential`]): they take
//! the collaborator's answers as arguments, so what is decided is proved for
//! every answer the collaborators could give.

use vstd::prelude::*;

use crate::error::IoResult;
use crate::wire::{bytes_eq, push_be_u32, push_be_u64, push_bytes, spec_be_u32, spec_be_u64,
    be_u32_at, be_u64_at, read_be_u32, read_be_u64};
use vstd::slice::{slice_subrange, slice_to_vec};

verus! {

/// Size in bytes of a SHA-256 digest.
pub const SHA256_DIGEST_SIZE: usize = 32;

/// Product intermediate key (PIK) rollback index location.
///
/// Reserved: no ordinary image rollback index may use this location.
pub const CERT_PIK_VERSION_LOCATION: usize = 0x1000;

/// Product signing key (PSK) rollback index location.
///
/// Reserved: no ordinary image rollback index may use this location.
pub const CERT_PSK_VERSION_LOCATION: usize = 0x1001;

/// Size in bytes of the public key material carried for each key.
pub const CERT_PUBLIC_KEY_SIZE: usize = 1032;

/// Size in bytes of the product identifier in the permanent attributes.
pub const CERT_PRODUCT_ID_SIZE: usize = 16;

/// Size in bytes of the random component of an unlock challenge.
pub const CERT_UNLOCK_CHALLENGE_RANDOM_SIZE: usize = 16;

/// Size in bytes of a signature.
pub const CERT_SIGNATURE_SIZE: usize = 512;

/// Schema version of the permanent attributes this crate understands.
pub const CERT_PERMANENT_ATTRIBUTES_VERSION: u32 = 1;

/// Schema version of a key certificate this crate understands.
pub const CERT_CERTIFICATE_VERSION: u32 = 1;

/// Schema version of an unlock challenge this crate understands.
pub const CERT_UNLOCK_CHALLENGE_VERSION: u32 = 1;

/// Schema version of an unlock credential this crate understands.
pub const CERT_UNLOCK_CREDENTIAL_VERSION: u32 = 1;

/// Schema version of the vbmeta public key metadata this crate understands.
pub const CERT_VBMETA_PUBLIC_KEY_METADATA_VERSION: u32 = 1;

/// Role string whose digest marks a certificate as issued for image signing.
pub const CERT_USAGE_SIGNING: &'static str = "com.google.android.things.vboot";

/// Role string whose digest marks a certificate as issued for authenticated
/// unlock.
pub const CERT_USAGE_UNLOCK: &'static str = "com.google.android.things.vboot.unlock";

/// Size in bytes of the signed portion of a serialized certificate.
pub const CERT_SIGNED_DATA_SIZE: usize = 4 + CERT_PUBLIC_KEY_SIZE + SHA256_DIGEST_SIZE
    + SHA256_DIGEST_SIZE + 8;

/// Size in bytes of a whole serialized certificate.
pub const CERT_CERTIFICATE_SIZE: usize = CERT_SIGNED_DATA_SIZE + CERT_SIGNATURE_SIZE;

/// Size in bytes of the vbmeta public key metadata: a version word followed
/// by the PIK certificate and the PSK certificate.
pub const CERT_VBMETA_PUBLIC_KEY_METADATA_SIZE: usize = 4 + 2 * CERT_CERTIFICATE_SIZE;

/// The device's permanent attributes: its root-of-trust material.
///
/// Read-only for this crate, owned and persisted by the device. The raw
/// attributes need not live in secure storage: whenever the device is
/// locked, they are authenticated against [`CertOps::read_permanent_attributes_hash`]
/// before they are trusted, so their corruption alone is only a
/// denial-of-service fault.
#[derive(Clone, Debug, PartialEq, Eq)]
pub struct CertPermanentAttributes {
    /// Schema version tag; must equal [`CERT_PERMANENT_ATTRIBUTES_VERSION`].
    pub version: u32,
    /// Public key material of the product root key (PRK).
    pub product_root_public_key: Vec<u8>,
    /// Identifier of this product, binding challenges to this device family.
    pub product_id: Vec<u8>,
}

impl CertPermanentAttributes {
    /// The fixed-size layout holds: each field has its declared size.
    pub open spec fn wf(&self) -> bool {
        &&& self.product_root_public_key@.len() == CERT_PUBLIC_KEY_SIZE
        &&& self.product_id@.len() == CERT_PRODUCT_ID_SIZE
    }
}

/// A key certificate of the hierarchy: key material and bookkeeping signed
/// by the next key up.
#[derive(Clone, Debug, PartialEq, Eq)]
pub struct CertCertificate {
    /// Schema version tag; must equal [`CERT_CERTIFICATE_VERSION`].
    pub version: u32,
    /// Public key material of the certified key.
    pub public_key: Vec<u8>,
    /// Digest identifying the certified key: for the signing key, the
    /// digest of the presented public key.
    pub subject: Vec<u8>,
    /// Digest of the role string naming what the certified key may do
    /// (image signing or unlock). Each validator accepts only its own role,
    /// so unlock authority never grants image-signing authority and vice
    /// versa.
    pub usage: Vec<u8>,
    /// Version of the certified key, tracked as a rollback value.
    pub key_version: u64,
    /// Signature over the signed portion, by the certifying key.
    pub signature: Vec<u8>,
}

impl CertCertificate {
    /// The fixed-size layout holds: each field has its declared size.
    pub open spec fn wf(&self) -> bool {
        &&& self.public_key@.len() == CERT_PUBLIC_KEY_SIZE
        &&& self.subject@.len() == SHA256_DIGEST_SIZE
        &&& self.usage@.len() == SHA256_DIGEST_SIZE
        &&& self.signature@.len() == CERT_SIGNATURE_SIZE
    }
}

/// A fresh challenge to be signed with the product unlock key (PUK).
///
/// Self-contained and device-bound: it carries the digest of this device's
/// product identifier, so a signature over it cannot be replayed against a
/// different device. Nothing is tracked between the two protocol steps.
#[derive(Clone, Debug, PartialEq, Eq)]
pub struct CertUnlockChallenge {
    /// Schema version tag; must equal [`CERT_UNLOCK_CHALLENGE_VERSION`].
    pub version: u32,
    /// SHA-256 digest of the device's product identifier.
    pub product_id_hash: Vec<u8>,
    /// Fresh random bytes, drawn once per unlock attempt.
    pub challenge: Vec<u8>,
}

impl CertUnlockChallenge {
    /// The fixed-size layout holds: each field has its declared size.
    pub open spec fn wf(&self) -> bool {
        &&& self.product_id_hash@.len() == SHA256_DIGEST_SIZE
        &&& self.challenge@.len() == CERT_UNLOCK_CHALLENGE_RANDOM_SIZE
    }
}

/// A signed response to an unlock challenge: the original challenge, the
/// certificates chaining the product unlock key (PUK) to the trust root, and
/// the signature over the challenge by the PUK.
#[derive(Clone, Debug, PartialEq, Eq)]
pub struct CertUnlockCredential {
    /// Schema version tag; must equal [`CERT_UNLOCK_CREDENTIAL_VERSION`].
    pub version: u32,
    /// Certificate of the PIK, signed by the PRK.
    pub intermediate_key_certificate: CertCertificate,
    /// Certificate of the PUK, signed by the PIK.
    pub unlock_key_certificate: CertCertificate,
    /// The challenge this credential answers.
    pub challenge: CertUnlockChallenge,
    /// Signature over the serialized challenge, by the PUK.
    pub challenge_signature: Vec<u8>,
}

impl CertUnlockCredential {
    /// The fixed-size layout holds: each field has its declared size.
    pub open spec fn wf(&self) -> bool {
        &&& self.intermediate_key_certificate.wf()
        &&& self.unlock_key_certificate.wf()
        &&& self.challenge.wf()
        &&& self.challenge_signature@.len() == CERT_SIGNATURE_SIZE
    }
}

/// Callback surface that the hosting device implements.
///
/// These operations are the only interface the crate requires from the host:
/// they hide the storage medium, the rollback store, the randomness source
/// and the cryptography provider. Nothing here is verified; each contract is
/// an obligation on the implementor.
pub trait CertOps {
    /// Reads the device's permanent attributes.
    ///
    /// The full permanent attributes need not be securely stored; corruption
    /// of this data alone only makes verification fail.
    fn read_permanent_attributes(&mut self) -> (r: IoResult<CertPermanentAttributes>)
        ensures
            r is Ok ==> r->Ok_0.wf(),
    ;

    /// Reads the SHA-256 digest of the device's permanent attributes.
    ///
    /// This digest must be sourced from a higher-security storage tier than
    /// the attributes themselves whenever the device is locked.
    fn read_permanent_attributes_hash(&mut self) -> (r: IoResult<Vec<u8>>)
        ensures
            r is Ok ==> r->Ok_0@.len() == SHA256_DIGEST_SIZE,
    ;

    /// Reads the last committed rollback value stored at the given index
    /// location.
    fn read_rollback_index(&mut self, rollback_index_location: usize) -> (r: IoResult<u64>);

    /// Records that the key tracked at the given rollback index location was
    /// observed with the given version.
    ///
    /// The device should only cache the value here and commit it to durable
    /// rollback storage after the images are known good (for instance after
    /// a successful first boot), to preserve fallback capability; since the
    /// value is cached rather than written, this call cannot fail.
    fn set_key_version(&mut self, rollback_index_location: usize, key_version: u64);

    /// Draws `count` cryptographically secure random bytes.
    ///
    /// Only authenticated unlock needs this; a device that does not support
    /// authenticated unlock returns [`crate::error::IoError::NotImplemented`].
    fn get_random(&mut self, count: usize) -> (r: IoResult<Vec<u8>>)
        ensures
            r is Ok ==> r->Ok_0@.len() == count,
    ;

    /// Hashing primitive of the device's cryptography provider: the SHA-256
    /// digest of `data`.
    fn sha256(&mut self, data: &[u8]) -> (r: Vec<u8>)
        ensures
            r@.len() == SHA256_DIGEST_SIZE,
    ;

    /// Signature primitive of the device's cryptography provider: whether
    /// `signature` is a valid signature over `message` under `public_key`.
    fn verify_signature(&mut self, public_key: &[u8], message: &[u8], signature: &[u8]) -> bool;
}

/// The serialized permanent attributes, as hashed for authentication.
pub open spec fn spec_permanent_attributes_bytes(attrs: CertPermanentAttributes) -> Seq<u8> {
    spec_be_u32(attrs.version) + attrs.product_root_public_key@ + attrs.product_id@
}

/// Serializes the permanent attributes for hashing.
pub fn permanent_attributes_bytes(attrs: &CertPermanentAttributes) -> (r: Vec<u8>)
    ensures
        r@ == spec_permanent_attributes_bytes(*attrs),
{
    let mut out: Vec<u8> = Vec::new();
    push_be_u32(&mut out, attrs.version);
    push_bytes(&mut out, attrs.product_root_public_key.as_slice());
    push_bytes(&mut out, attrs.product_id.as_slice());
    proof {
        assert(out@ =~= spec_permanent_attributes_bytes(*attrs));
    }
    out
}

/// The signed portion of a serialized certificate: everything but the
/// signature, in wire order.
pub open spec fn spec_certificate_signed_data_bytes(c: CertCertificate) -> Seq<u8> {
    spec_be_u32(c.version) + c.public_key@ + c.subject@ + c.usage@ + spec_be_u64(c.key_version)
}

/// Serializes the signed portion of a certificate, as covered by its
/// signature.
pub fn certificate_signed_data_bytes(c: &CertCertificate) -> (r: Vec<u8>)
    ensures
        r@ == spec_certificate_signed_data_bytes(*c),
{
    let mut out: Vec<u8> = Vec::new();
    push_be_u32(&mut out, c.version);
    push_bytes(&mut out, c.public_key.as_slice());
    push_bytes(&mut out, c.subject.as_slice());
    push_bytes(&mut out, c.usage.as_slice());
    push_be_u64(&mut out, c.key_version);
    proof {
        assert(out@ =~= spec_certificate_signed_data_bytes(*c));
    }
    out
}

/// The serialized unlock challenge, as covered by the credential's
/// challenge signature.
pub open spec fn spec_unlock_challenge_bytes(challenge: CertUnlockChallenge) -> Seq<u8> {
    spec_be_u32(challenge.version) + challenge.product_id_hash@ + challenge.challenge@
}

/// Serializes an unlock challenge, as signed with the PUK.
pub fn unlock_challenge_bytes(challenge: &CertUnlockChallenge) -> (r: Vec<u8>)
    ensures
        r@ == spec_unlock_challenge_bytes(*challenge),
{
    let mut out: Vec<u8> = Vec::new();
    push_be_u32(&mut out, challenge.version);
    push_bytes(&mut out, challenge.product_id_hash.as_slice());
    push_bytes(&mut out, challenge.challenge.as_slice());
    proof {
        assert(out@ =~= spec_unlock_challenge_bytes(*challenge));
    }
    out
}

/// True when the certificate `c` holds exactly the fields serialized in `s`.
pub open spec fn spec_certificate_matches_bytes(c: CertCertificate, s: Seq<u8>) -> bool
    recommends
        s.len() == CERT_CERTIFICATE_SIZE,
{
    &&& c.version == be_u32_at(s, 0)
    &&& c.public_key@ == s.subrange(4, 4 + CERT_PUBLIC_KEY_SIZE as int)
    &&& c.subject@ == s.subrange(
        4 + CERT_PUBLIC_KEY_SIZE as int,
        4 + CERT_PUBLIC_KEY_SIZE + SHA256_DIGEST_SIZE,
    )
    &&& c.usage@ == s.subrange(
        4 + CERT_PUBLIC_KEY_SIZE + SHA256_DIGEST_SIZE,
        4 + CERT_PUBLIC_KEY_SIZE + 2 * SHA256_DIGEST_SIZE,
    )
    &&& c.key_version == be_u64_at(s, 4 + CERT_PUBLIC_KEY_SIZE + 2 * SHA256_DIGEST_SIZE)
    &&& c.signature@ == s.subrange(CERT_SIGNED_DATA_SIZE as int, CERT_CERTIFICATE_SIZE as int)
}

/// Parses one serialized certificate.
pub fn parse_certificate(bytes: &[u8]) -> (c: CertCertificate)
    requires
        bytes@.len() == CERT_CERTIFICATE_SIZE,
    ensures
        spec_certificate_matches_bytes(c, bytes@),
        c.wf(),
        spec_certificate_signed_data_bytes(c) + c.signature@ == bytes@,
{
    let version = read_be_u32(bytes, 0);
    let public_key = slice_to_vec(slice_subrange(bytes, 4, 4 + CERT_PUBLIC_KEY_SIZE));
    let subject = slice_to_vec(
        slice_subrange(
            bytes,
            4 + CERT_PUBLIC_KEY_SIZE,
            4 + CERT_PUBLIC_KEY_SIZE + SHA256_DIGEST_SIZE,
        ),
    );
    let usage = slice_to_vec(
        slice_subrange(
            bytes,
            4 + CERT_PUBLIC_KEY_SIZE + SHA256_DIGEST_SIZE,
            4 + CERT_PUBLIC_KEY_SIZE + 2 * SHA256_DIGEST_SIZE,
        ),
    );
    let key_version = read_be_u64(bytes, 4 + CERT_PUBLIC_KEY_SIZE + 2 * SHA256_DIGEST_SIZE);
    let signature = slice_to_vec(slice_subrange(bytes, CERT_SIGNED_DATA_SIZE, CERT_CERTIFICATE_SIZE));
    let c = CertCertificate { version, public_key, subject, usage, key_version, signature };
    proof {
        crate::wire::lemma_be_u32_roundtrip(bytes@, 0);
        crate::wire::lemma_be_u64_roundtrip(
            bytes@,
            4 + CERT_PUBLIC_KEY_SIZE + 2 * SHA256_DIGEST_SIZE,
        );
        assert(spec_certificate_signed_data_bytes(c) + c.signature@ =~= bytes@);
    }
    c
}

/// True when `s` is well-formed vbmeta public key metadata: exactly a
/// version word equal to [`CERT_VBMETA_PUBLIC_KEY_METADATA_VERSION`]
/// followed by two serialized certificates.
pub open spec fn spec_metadata_ok(s: Seq<u8>) -> bool {
    &&& s.len() == CERT_VBMETA_PUBLIC_KEY_METADATA_SIZE
    &&& be_u32_at(s, 0) == CERT_VBMETA_PUBLIC_KEY_METADATA_VERSION
}

/// Parses vbmeta public key metadata into the PIK certificate and the PSK
/// certificate.
///
/// Returns `None` exactly when the buffer is not the fixed metadata layout;
/// the caller treats that as "untrusted", never as an error.
pub fn parse_public_key_metadata(bytes: &[u8]) -> (r: Option<(CertCertificate, CertCertificate)>)
    ensures
        r is Some <==> spec_metadata_ok(bytes@),
        r is Some ==> spec_certificate_matches_bytes(
            (r->0).0,
            bytes@.subrange(4, 4 + CERT_CERTIFICATE_SIZE as int),
        ) && spec_certificate_matches_bytes(
            (r->0).1,
            bytes@.subrange(
                4 + CERT_CERTIFICATE_SIZE as int,
                4 + 2 * CERT_CERTIFICATE_SIZE as int,
            ),
        ) && (r->0).0.wf() && (r->0).1.wf(),
        r is Some ==> spec_certificate_signed_data_bytes((r->0).0) + (r->0).0.signature@
            == bytes@.subrange(4, 4 + CERT_CERTIFICATE_SIZE as int)
            && spec_certificate_signed_data_bytes((r->0).1) + (r->0).1.signature@
            == bytes@.subrange(4 + CERT_CERTIFICATE_SIZE as int, 4 + 2 * CERT_CERTIFICATE_SIZE as int),
{
    if bytes.len() != CERT_VBMETA_PUBLIC_KEY_METADATA_SIZE {
        return None;
    }
    let version = read_be_u32(bytes, 0);
    if version != CERT_VBMETA_PUBLIC_KEY_METADATA_VERSION {
        return None;
    }
    let pik = parse_certificate(slice_subrange(bytes, 4, 4 + CERT_CERTIFICATE_SIZE));
    let psk = parse_certificate(
        slice_subrange(bytes, 4 + CERT_CERTIFICATE_SIZE, 4 + 2 * CERT_CERTIFICATE_SIZE),
    );
    Some((pik, psk))
}

/// The key-hierarchy trust decision over the collaborators' answers.
///
/// A presented signing key is trusted exactly when the permanent attributes
/// authenticated against their securely stored digest, every schema version
/// matches, the PRK signed the PIK certificate, the PIK signed the PSK
/// certificate, the presented key's digest is the PSK certificate's subject,
/// the PSK certificate carries the image-signing role, and neither key
/// version is below the last committed version of its reserved rollback
/// location. The role check keeps the keys apart: a certificate issued for
/// unlock never validates an image signing key.
pub open spec fn spec_key_hierarchy_trusted(
    attrs: CertPermanentAttributes,
    attributes_authentic: bool,
    pik_certificate: CertCertificate,
    psk_certificate: CertCertificate,
    pik_signature_ok: bool,
    psk_signature_ok: bool,
    key_digest_matches_subject: bool,
    psk_usage_matches: bool,
    pik_committed_version: u64,
    psk_committed_version: u64,
) -> bool {
    &&& attributes_authentic
    &&& attrs.version == CERT_PERMANENT_ATTRIBUTES_VERSION
    &&& pik_certificate.version == CERT_CERTIFICATE_VERSION
    &&& psk_certificate.version == CERT_CERTIFICATE_VERSION
    &&& pik_signature_ok
    &&& psk_signature_ok
    &&& key_digest_matches_subject
    &&& psk_usage_matches
    &&& pik_certificate.key_version >= pik_committed_version
    &&& psk_certificate.key_version >= psk_committed_version
}

/// Decides the key-hierarchy trust question from the collaborators' answers.
///
/// Pure: it is proved for every combination of answers. In particular it
/// never accepts a key whose version is strictly below the last committed
/// version of its rollback location (no downgrade to a revoked key).
pub fn evaluate_key_hierarchy(
    attrs: &CertPermanentAttributes,
    attributes_authentic: bool,
    pik_certificate: &CertCertificate,
    psk_certificate: &CertCertificate,
    pik_signature_ok: bool,
    psk_signature_ok: bool,
    key_digest_matches_subject: bool,
    psk_usage_matches: bool,
    pik_committed_version: u64,
    psk_committed_version: u64,
) -> (r: bool)
    ensures
        r == spec_key_hierarchy_trusted(
            *attrs,
            attributes_authentic,
            *pik_certificate,
            *psk_certificate,
            pik_signature_ok,
            psk_signature_ok,
            key_digest_matches_subject,
            psk_usage_matches,
            pik_committed_version,
            psk_committed_version,
        ),
        r ==> pik_certificate.key_version >= pik_committed_version
            && psk_certificate.key_version >= psk_committed_version,
        !pik_signature_ok ==> !r,
        !psk_signature_ok ==> !r,
        !psk_usage_matches ==> !r,
        !attributes_authentic ==> !r,
{
    attributes_authentic && attrs.version == CERT_PERMANENT_ATTRIBUTES_VERSION
        && pik_certificate.version == CERT_CERTIFICATE_VERSION && psk_certificate.version
        == CERT_CERTIFICATE_VERSION && pik_signature_ok && psk_signature_ok
        && key_digest_matches_subject && psk_usage_matches && pik_certificate.key_version
        >= pik_committed_version && psk_certificate.key_version >= psk_committed_version
}

/// The unlock-credential trust decision over the collaborators' answers.
///
/// A credential is trusted exactly when the permanent attributes
/// authenticated, every schema version matches, the embedded challenge is
/// bound to this device's product identifier, the structure has its fixed
/// layout, the PRK signed the PIK certificate, the PIK signed the PUK
/// certificate, the PUK certificate carries the unlock role, the PUK signed
/// the challenge, and the PIK version is not below the last committed
/// version of its reserved rollback location. The role check keeps the keys
/// apart: a certificate issued for image signing never validates an unlock
/// credential.
pub open spec fn spec_unlock_credential_trusted(
    attrs: CertPermanentAttributes,
    attributes_authentic: bool,
    credential: CertUnlockCredential,
    pik_signature_ok: bool,
    puk_signature_ok: bool,
    challenge_signature_ok: bool,
    product_id_hash_matches: bool,
    puk_usage_matches: bool,
    pik_committed_version: u64,
) -> bool {
    &&& credential.wf()
    &&& attributes_authentic
    &&& attrs.version == CERT_PERMANENT_ATTRIBUTES_VERSION
    &&& credential.version == CERT_UNLOCK_CREDENTIAL_VERSION
    &&& credential.challenge.version == CERT_UNLOCK_CHALLENGE_VERSION
    &&& credential.intermediate_key_certificate.version == CERT_CERTIFICATE_VERSION
    &&& credential.unlock_key_certificate.version == CERT_CERTIFICATE_VERSION
    &&& product_id_hash_matches
    &&& pik_signature_ok
    &&& puk_signature_ok
    &&& puk_usage_matches
    &&& challenge_signature_ok
    &&& credential.intermediate_key_certificate.key_version >= pik_committed_version
}

/// Decides the unlock-credential trust question from the collaborators'
/// answers.
///
/// Pure: it is proved for every combination of answers. In particular a
/// wrongly-signed credential is rejected with `false`, never with an error,
/// and a PIK below its last committed version is never accepted.
pub fn evaluate_unlock_credential(
    attrs: &CertPermanentAttributes,
    attributes_authentic: bool,
    credential: &CertUnlockCredential,
    pik_signature_ok: bool,
    puk_signature_ok: bool,
    challenge_signature_ok: bool,
    product_id_hash_matches: bool,
    puk_usage_matches: bool,
    pik_committed_version: u64,
) -> (r: bool)
    ensures
        r == spec_unlock_credential_trusted(
            *attrs,
            attributes_authentic,
            *credential,
            pik_signature_ok,
            puk_signature_ok,
            challenge_signature_ok,
            product_id_hash_matches,
            puk_usage_matches,
            pik_committed_version,
        ),
        !challenge_signature_ok ==> !r,
        !puk_signature_ok ==> !r,
        !pik_signature_ok ==> !r,
        !puk_usage_matches ==> !r,
        r ==> credential.intermediate_key_certificate.key_version >= pik_committed_version,
{
    let structure_ok = credential.intermediate_key_certificate.public_key.len()
        == CERT_PUBLIC_KEY_SIZE && credential.intermediate_key_certificate.subject.len()
        == SHA256_DIGEST_SIZE && credential.intermediate_key_certificate.usage.len()
        == SHA256_DIGEST_SIZE && credential.intermediate_key_certificate.signature.len()
        == CERT_SIGNATURE_SIZE && credential.unlock_key_certificate.public_key.len()
        == CERT_PUBLIC_KEY_SIZE && credential.unlock_key_certificate.subject.len()
        == SHA256_DIGEST_SIZE && credential.unlock_key_certificate.usage.len()
        == SHA256_DIGEST_SIZE && credential.unlock_key_certificate.signature.len()
        == CERT_SIGNATURE_SIZE && credential.challenge.product_id_hash.len() == SHA256_DIGEST_SIZE
        && credential.challenge.challenge.len() == CERT_UNLOCK_CHALLENGE_RANDOM_SIZE
        && credential.challenge_signature.len() == CERT_SIGNATURE_SIZE;
    structure_ok && attributes_authentic && attrs.version == CERT_PERMANENT_ATTRIBUTES_VERSION
        && credential.version == CERT_UNLOCK_CREDENTIAL_VERSION && credential.challenge.version
        == CERT_UNLOCK_CHALLENGE_VERSION && credential.intermediate_key_certificate.version
        == CERT_CERTIFICATE_VERSION && credential.unlock_key_certificate.version
        == CERT_CERTIFICATE_VERSION && product_id_hash_matches && pik_signature_ok
        && puk_signature_ok && puk_usage_matches && challenge_signature_ok
        && credential.intermediate_key_certificate.key_version >= pik_committed_version
}

/// Certificate-based vbmeta signing key validation.
///
/// Decides whether `public_key` is an acceptable vbmeta signer for this
/// device: the metadata must carry the PIK and PSK certificates chaining the
/// key to the trust root of the authenticated permanent attributes, the PSK
/// certificate must carry the image-signing role (a certificate issued for
/// unlock is refused), and neither key version may be below its last
/// committed rollback value. On
/// success the observed versions are handed to the device's key-version
/// cache for deferred commit.
///
/// A determinate "untrusted" — absent or malformed metadata included — is
/// `Ok(false)`, never an error; an error is returned only when a
/// collaborator call itself fails.
pub fn cert_validate_vbmeta_public_key<O: CertOps>(
    ops: &mut O,
    public_key: &[u8],
    public_key_metadata: Option<&[u8]>,
) -> (r: IoResult<bool>)
    ensures
        public_key_metadata is None ==> (r is Ok && r->Ok_0 == false),
        (public_key_metadata is Some && !spec_metadata_ok(public_key_metadata->0@)) ==> (r is Ok
            && r->Ok_0 == false),
        (r is Ok && r->Ok_0) ==> public_key_metadata is Some && be_u32_at(
            public_key_metadata->0@,
            4,
        ) == CERT_CERTIFICATE_VERSION && be_u32_at(
            public_key_metadata->0@,
            4 + CERT_CERTIFICATE_SIZE as int,
        ) == CERT_CERTIFICATE_VERSION,
{
    let metadata_bytes = match public_key_metadata {
        Some(b) => b,
        None => {
            return Ok(false);
        },
    };
    let certificates = match parse_public_key_metadata(metadata_bytes) {
        Some(p) => p,
        None => {
            return Ok(false);
        },
    };
    let (pik_certificate, psk_certificate) = certificates;
    let attrs = match ops.read_permanent_attributes() {
        Ok(a) => a,
        Err(e) => {
            return Err(e);
        },
    };
    let stored_hash = match ops.read_permanent_attributes_hash() {
        Ok(h) => h,
        Err(e) => {
            return Err(e);
        },
    };
    let attrs_bytes = permanent_attributes_bytes(&attrs);
    let computed_hash = ops.sha256(attrs_bytes.as_slice());
    let attributes_authentic = bytes_eq(computed_hash.as_slice(), stored_hash.as_slice());
    let pik_signed_data = certificate_signed_data_bytes(&pik_certificate);
    let pik_signature_ok = ops.verify_signature(
        attrs.product_root_public_key.as_slice(),
        pik_signed_data.as_slice(),
        pik_certificate.signature.as_slice(),
    );
    let psk_signed_data = certificate_signed_data_bytes(&psk_certificate);
    let psk_signature_ok = ops.verify_signature(
        pik_certificate.public_key.as_slice(),
        psk_signed_data.as_slice(),
        psk_certificate.signature.as_slice(),
    );
    let key_digest = ops.sha256(public_key);
    let key_digest_matches_subject = bytes_eq(
        key_digest.as_slice(),
        psk_certificate.subject.as_slice(),
    );
    let signing_usage_digest = ops.sha256(CERT_USAGE_SIGNING.as_bytes());
    let psk_usage_matches = bytes_eq(
        signing_usage_digest.as_slice(),
        psk_certificate.usage.as_slice(),
    );
    let pik_committed_version = match ops.read_rollback_index(CERT_PIK_VERSION_LOCATION) {
        Ok(v) => v,
        Err(e) => {
            return Err(e);
        },
    };
    let psk_committed_version = match ops.read_rollback_index(CERT_PSK_VERSION_LOCATION) {
        Ok(v) => v,
        Err(e) => {
            return Err(e);
        },
    };
    let trusted = evaluate_key_hierarchy(
        &attrs,
        attributes_authentic,
        &pik_certificate,
        &psk_certificate,
        pik_signature_ok,
        psk_signature_ok,
        key_digest_matches_subject,
        psk_usage_matches,
        pik_committed_version,
        psk_committed_version,
    );
    if trusted {
        ops.set_key_version(CERT_PIK_VERSION_LOCATION, pik_certificate.key_version);
        ops.set_key_version(CERT_PSK_VERSION_LOCATION, psk_certificate.key_version);
    }
    proof {
        if trusted {
            assert(be_u32_at(
                metadata_bytes@.subrange(4, 4 + CERT_CERTIFICATE_SIZE as int),
                0,
            ) == be_u32_at(metadata_bytes@, 4));
            assert(be_u32_at(
                metadata_bytes@.subrange(
                    4 + CERT_CERTIFICATE_SIZE as int,
                    4 + 2 * CERT_CERTIFICATE_SIZE as int,
                ),
                0,
            ) == be_u32_at(metadata_bytes@, 4 + CERT_CERTIFICATE_SIZE as int));
        }
    }
    Ok(trusted)
}

/// Generates a challenge for authenticated unlock, to be signed with the
/// product unlock key (PUK).
///
/// The challenge binds the device through the digest of its product
/// identifier and carries fresh random bytes, so a signature over it cannot
/// be replayed against a different device. Fails with the
/// collaborator's error when the permanent attributes are unreadable or when
/// randomness is unavailable — the expected failure mode on devices without
/// authenticated unlock.
pub fn cert_generate_unlock_challenge<O: CertOps>(ops: &mut O) -> (r: IoResult<
    CertUnlockChallenge,
>)
    ensures
        r is Ok ==> r->Ok_0.wf() && r->Ok_0.version == CERT_UNLOCK_CHALLENGE_VERSION,
{
    let attrs = match ops.read_permanent_attributes() {
        Ok(a) => a,
        Err(e) => {
            return Err(e);
        },
    };
    let product_id_hash = ops.sha256(attrs.product_id.as_slice());
    let random = match ops.get_random(CERT_UNLOCK_CHALLENGE_RANDOM_SIZE) {
        Ok(c) => c,
        Err(e) => {
            return Err(e);
        },
    };
    Ok(make_unlock_challenge(product_id_hash, random))
}

/// Assembles an unlock challenge from the device-binding digest and the
/// drawn random bytes.
///
/// Both components are taken verbatim: the challenge's random field is
/// exactly the bytes the randomness collaborator supplied, and its
/// device-binding field is exactly the digest derived from this device's
/// permanent attributes — so a signature over the challenge cannot be
/// replayed against a different device.
pub fn make_unlock_challenge(product_id_hash: Vec<u8>, random: Vec<u8>) -> (c: CertUnlockChallenge)
    ensures
        c.version == CERT_UNLOCK_CHALLENGE_VERSION,
        c.product_id_hash@ == product_id_hash@,
        c.challenge@ == random@,
{
    CertUnlockChallenge {
        version: CERT_UNLOCK_CHALLENGE_VERSION,
        product_id_hash,
        challenge: random,
    }
}

/// Fresh randomness gives a fresh token: two challenges whose random
/// components differ are different challenges, so two successful
/// generations that drew different bytes can never hand out the same
/// challenge.
pub proof fn lemma_distinct_random_distinct_challenges(
    c1: CertUnlockChallenge,
    c2: CertUnlockChallenge,
)
    requires
        c1.challenge@ != c2.challenge@,
    ensures
        c1 != c2,
{
}

/// Validates a signed credential for authenticated unlock.
///
/// The embedded challenge must be bound to this device (its product
/// identifier digest matches), the PUK must chain to the trust root of the
/// authenticated permanent attributes through the PIK, the PUK certificate
/// must carry the unlock role (a certificate issued for image signing is
/// refused), the PIK version may not be below its last committed rollback
/// value, and the challenge signature must verify under the PUK. The decision itself is
/// [`evaluate_unlock_credential`]; this function only gathers the
/// collaborators' answers. A failed validation is `Ok(false)`, never an
/// error; an error is returned only when reading the permanent attributes or
/// their digest, or the rollback store, fails.
pub fn cert_validate_unlock_credential<O: CertOps>(
    ops: &mut O,
    credential: &CertUnlockCredential,
) -> (r: IoResult<bool>)
    ensures
        (r is Ok && r->Ok_0) ==> credential.wf() && credential.version
            == CERT_UNLOCK_CREDENTIAL_VERSION && credential.challenge.version
            == CERT_UNLOCK_CHALLENGE_VERSION && credential.intermediate_key_certificate.version
            == CERT_CERTIFICATE_VERSION && credential.unlock_key_certificate.version
            == CERT_CERTIFICATE_VERSION,
{
    let attrs = match ops.read_permanent_attributes() {
        Ok(a) => a,
        Err(e) => {
            return Err(e);
        },
    };
    let stored_hash = match ops.read_permanent_attributes_hash() {
        Ok(h) => h,
        Err(e) => {
            return Err(e);
        },
    };
    let attrs_bytes = permanent_attributes_bytes(&attrs);
    let computed_hash = ops.sha256(attrs_bytes.as_slice());
    let attributes_authentic = bytes_eq(computed_hash.as_slice(), stored_hash.as_slice());
    let product_id_hash = ops.sha256(attrs.product_id.as_slice());
    let product_id_hash_matches = bytes_eq(
        product_id_hash.as_slice(),
        credential.challenge.product_id_hash.as_slice(),
    );
    let pik_signed_data = certificate_signed_data_bytes(&credential.intermediate_key_certificate);
    let pik_signature_ok = ops.verify_signature(
        attrs.product_root_public_key.as_slice(),
        pik_signed_data.as_slice(),
        credential.intermediate_key_certificate.signature.as_slice(),
    );
    let puk_signed_data = certificate_signed_data_bytes(&credential.unlock_key_certificate);
    let puk_signature_ok = ops.verify_signature(
        credential.intermediate_key_certificate.public_key.as_slice(),
        puk_signed_data.as_slice(),
        credential.unlock_key_certificate.signature.as_slice(),
    );
    let challenge_bytes = unlock_challenge_bytes(&credential.challenge);
    let challenge_signature_ok = ops.verify_signature(
        credential.unlock_key_certificate.public_key.as_slice(),
        challenge_bytes.as_slice(),
        credential.challenge_signature.as_slice(),
    );
    let unlock_usage_digest = ops.sha256(CERT_USAGE_UNLOCK.as_bytes());
    let puk_usage_matches = bytes_eq(
        unlock_usage_digest.as_slice(),
        credential.unlock_key_certificate.usage.as_slice(),
    );
    let pik_committed_version = match ops.read_rollback_index(CERT_PIK_VERSION_LOCATION) {
        Ok(v) => v,
        Err(e) => {
            return Err(e);
        },
    };
    Ok(
        evaluate_unlock_credential(
            &attrs,
            attributes_authentic,
            credential,
            pik_signature_ok,
            puk_signature_ok,
            challenge_signature_ok,
            product_id_hash_matches,
            puk_usage_matches,
            pik_committed_version,
        ),
    )
}

} // verus!
