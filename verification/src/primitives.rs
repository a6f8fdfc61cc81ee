//! The calls into the cryptographic crates.
//!
//! Every function here hands plain bytes to one outside function and hands
//! plain bytes back. Its contract is taken on trust. Where the outside
//! function computes a fixed function of its arguments, the contract gives
//! that function a name, so that the rest of the library can say exactly
//! which bytes went into which computation.

use vstd::prelude::*;
use sha2::{Digest, Sha256, Sha512};
use hkdf::Hkdf;
use vodozemac::{Curve25519PublicKey, Curve25519SecretKey, Ed25519PublicKey, Ed25519SecretKey, Ed25519Signature};
use curve25519_dalek::edwards::CompressedEdwardsY;
use rand::RngCore;
use aes_gcm::aead::{Aead, KeyInit};
use aes_gcm::{Aes256Gcm, Key, Nonce};

verus! {

/// The SHA-256 digest of `data`: 32 bytes.
pub uninterp spec fn sha256_digest(data: Seq<u8>) -> Seq<u8>;

/// The SHA-512 digest of `data`: 64 bytes.
pub uninterp spec fn sha512_digest(data: Seq<u8>) -> Seq<u8>;

/// The first 32 bytes of HKDF-SHA256 output for the given salt, input key
/// material and info. An absent salt is not the same argument as an empty one.
pub uninterp spec fn hkdf_sha256_32(salt: Option<Seq<u8>>, ikm: Seq<u8>, info: Seq<u8>) -> Seq<u8>;

/// The X25519 public key that belongs to a 32-byte secret.
pub uninterp spec fn x25519_public(secret: Seq<u8>) -> Seq<u8>;

/// The raw X25519 shared point of a secret and a peer's public key.
pub uninterp spec fn x25519(secret: Seq<u8>, their_public: Seq<u8>) -> Seq<u8>;

/// The Ed25519 public key that belongs to a 32-byte seed.
pub uninterp spec fn ed25519_public(seed: Seq<u8>) -> Seq<u8>;

/// The Ed25519 signature of `message` under the key with the given seed.
pub uninterp spec fn ed25519_signature(seed: Seq<u8>, message: Seq<u8>) -> Seq<u8>;

/// Whether 32 bytes decode to an Ed25519 public key.
pub uninterp spec fn ed25519_key_valid(public: Seq<u8>) -> bool;

/// Whether `signature` is accepted for `message` under a valid public key.
pub uninterp spec fn ed25519_accepts(public: Seq<u8>, message: Seq<u8>, signature: Seq<u8>) -> bool;

/// The Montgomery u-coordinate of the Edwards point that 32 bytes encode, if
/// they encode one.
pub uninterp spec fn montgomery_of_edwards(compressed: Seq<u8>) -> Option<Seq<u8>>;

/// What AES-256-GCM makes of a plaintext under a key and a 12-byte nonce,
/// with no associated data: ciphertext and tag, where it accepts the length.
pub uninterp spec fn aes256_gcm_sealed(key: Seq<u8>, nonce: Seq<u8>, plaintext: Seq<u8>) -> Option<Seq<u8>>;

/// The plaintext that AES-256-GCM recovers from ciphertext and tag, where the
/// tag authenticates them.
pub uninterp spec fn aes256_gcm_opened(key: Seq<u8>, nonce: Seq<u8>, sealed: Seq<u8>) -> Option<Seq<u8>>;

/// Curve25519 clamping of a 32-byte scalar: the three low bits of the first
/// byte and the top bit of the last are cleared, the second-highest bit of
/// the last is set.
pub open spec fn clamped(scalar: Seq<u8>) -> Seq<u8> {
    scalar.update(0, scalar[0] & 248).update(31, (scalar[31] & 127) | 64)
}

/// The first 32 bytes of a digest.
pub open spec fn first_half(digest: Seq<u8>) -> Seq<u8> {
    Seq::new(32, |i: int| digest[i])
}

/// The Curve25519 secret of an Ed25519 seed: the first half of its SHA-512
/// digest, clamped. It has 32 bytes.
pub open spec fn curve_secret_of_seed(seed: Seq<u8>) -> Seq<u8> {
    clamped(first_half(sha512_digest(seed)))
}

/// The Curve25519 secret of any seed has 32 bytes.
pub proof fn lemma_curve_secret_length(seed: Seq<u8>)
    ensures
        curve_secret_of_seed(seed).len() == 32,
{
}

/// `sha2::Sha256::digest`. The result is the digest of exactly the bytes given.
#[verifier::external_body]
pub(crate) fn sha256(data: &[u8]) -> (digest: [u8; 32])
    ensures
        digest@ == sha256_digest(data@),
{
    Sha256::digest(data).into()
}

/// `sha2::Sha512::digest`. The result is the digest of exactly the bytes given.
#[verifier::external_body]
pub(crate) fn sha512(data: &[u8]) -> (digest: [u8; 64])
    ensures
        digest@ == sha512_digest(data@),
{
    Sha512::digest(data).into()
}

/// `hkdf::Hkdf::<Sha256>::new` followed by `expand` into 32 bytes. Expansion
/// is refused only for outputs longer than 255 hash blocks, so for 32 bytes it
/// always succeeds.
#[verifier::external_body]
pub(crate) fn hkdf_sha256(salt: Option<&[u8]>, ikm: &[u8], info: &[u8]) -> (okm: Option<[u8; 32]>)
    ensures
        okm is Some,
        okm->0@ == hkdf_sha256_32(
            match salt {
                Some(s) => Some(s@),
                None => None,
            },
            ikm@,
            info@,
        ),
{
    let kdf = Hkdf::<Sha256>::new(salt, ikm);
    let mut okm = [0u8; 32];
    match kdf.expand(info, &mut okm) {
        Ok(()) => Some(okm),
        Err(_) => None,
    }
}

/// `x25519_dalek::PublicKey::from(&StaticSecret)`: base-point multiplication
/// by the clamped secret.
#[verifier::external_body]
pub(crate) fn x25519_public_key(secret: &[u8; 32]) -> (public: [u8; 32])
    ensures
        public@ == x25519_public(secret@),
{
    let secret_key = x25519_dalek::StaticSecret::from(*secret);
    x25519_dalek::PublicKey::from(&secret_key).to_bytes()
}

/// `vodozemac::Curve25519SecretKey::diffie_hellman`, which is
/// `x25519_dalek::StaticSecret::diffie_hellman`. The result is the raw shared
/// point; it is not hashed and not checked for being contributory. As the
/// documentation of x25519-dalek shows for two parties who exchange public
/// keys, it is the point that the owner of the peer's key gets with our
/// public key, whatever 32-byte secret the peer's key belongs to.
#[verifier::external_body]
pub(crate) fn x25519_shared_secret(secret: &[u8; 32], their_public: &[u8; 32]) -> (shared: [u8; 32])
    ensures
        shared@ == x25519(secret@, their_public@),
        forall|their_secret: Seq<u8>|
            their_secret.len() == 32 && their_public@ == #[trigger] x25519_public(their_secret)
                ==> shared@ == x25519(
                their_secret,
                x25519_public(secret@),
            ),
{
    let secret_key = Curve25519SecretKey::from_slice(secret);
    let public_key = Curve25519PublicKey::from_bytes(*their_public);
    secret_key.diffie_hellman(&public_key).to_bytes()
}

/// `vodozemac::Curve25519SecretKey::new`: a fresh random secret. Nothing is
/// known of its bytes.
#[verifier::external_body]
pub(crate) fn x25519_random_secret() -> (secret: [u8; 32])
{
    *Curve25519SecretKey::new().to_bytes()
}

/// `vodozemac::Ed25519SecretKey::new`: a fresh random seed. Nothing is known
/// of its bytes.
#[verifier::external_body]
pub(crate) fn ed25519_random_seed() -> (seed: [u8; 32])
{
    *Ed25519SecretKey::new().to_bytes()
}

/// `vodozemac::Ed25519SecretKey::public_key`. The key that comes out is one
/// that `Ed25519PublicKey::from_slice` accepts: it is the encoding of a point.
/// That point is the base point times the clamped first half of the seed's
/// SHA-512 digest (ed25519-dalek, `ExpandedSecretKey::from_bytes`), and the
/// X25519 public key of a secret is the Montgomery form of the base point
/// times the clamped secret (x25519-dalek, `PublicKey::from`). So the
/// Montgomery form of the key is the X25519 public key of the seed's
/// Curve25519 secret.
#[verifier::external_body]
pub(crate) fn ed25519_public_key(seed: &[u8; 32]) -> (public: [u8; 32])
    ensures
        public@ == ed25519_public(seed@),
        ed25519_key_valid(public@),
        montgomery_of_edwards(public@) == Some(x25519_public(curve_secret_of_seed(seed@))),
{
    *Ed25519SecretKey::from_slice(seed).public_key().as_bytes()
}

/// `vodozemac::Ed25519SecretKey::sign`. Signing is deterministic, and the
/// signature is one that the matching public key accepts for the message.
#[verifier::external_body]
pub(crate) fn ed25519_sign(seed: &[u8; 32], message: &[u8]) -> (signature: [u8; 64])
    ensures
        signature@ == ed25519_signature(seed@, message@),
        ed25519_accepts(ed25519_public(seed@), message@, signature@),
{
    Ed25519SecretKey::from_slice(seed).sign(message).to_bytes()
}

/// `vodozemac::Ed25519PublicKey::from_slice`: whether the bytes are accepted
/// as a public key. They are accepted exactly where they decompress to a
/// point of the curve, which is where they have a Montgomery form.
#[verifier::external_body]
pub(crate) fn ed25519_check_key(public: &[u8; 32]) -> (valid: bool)
    ensures
        valid == ed25519_key_valid(public@),
        valid == (montgomery_of_edwards(public@) is Some),
{
    Ed25519PublicKey::from_slice(public).is_ok()
}

/// `vodozemac::Ed25519PublicKey::verify` on a key that `ed25519_check_key`
/// accepted. A 64-byte signature always decodes, so the answer is that of the
/// signature check alone.
#[verifier::external_body]
pub(crate) fn ed25519_verify(public: &[u8; 32], message: &[u8], signature: &[u8; 64]) -> (accepted: bool)
    requires
        ed25519_key_valid(public@),
    ensures
        accepted == ed25519_accepts(public@, message@, signature@),
{
    match (Ed25519PublicKey::from_slice(public), Ed25519Signature::from_slice(signature)) {
        (Ok(key), Ok(sig)) => key.verify(message, &sig).is_ok(),
        _ => false,
    }
}

/// `curve25519_dalek::edwards::CompressedEdwardsY::decompress` followed by
/// `EdwardsPoint::to_montgomery`: `None` where the bytes encode no point,
/// which is where they are no Ed25519 public key.
#[verifier::external_body]
pub(crate) fn edwards_to_montgomery(compressed: &[u8; 32]) -> (u: Option<[u8; 32]>)
    ensures
        match u {
            Some(bytes) => montgomery_of_edwards(compressed@) == Some(bytes@),
            None => montgomery_of_edwards(compressed@) is None,
        },
        u is Some <==> ed25519_key_valid(compressed@),
{
    CompressedEdwardsY(*compressed).decompress().map(|point| point.to_montgomery().to_bytes())
}

/// `rand::RngCore::fill_bytes` on the thread's generator: `count` random
/// bytes. Nothing is known of them but their number.
#[verifier::external_body]
pub(crate) fn random_bytes(count: usize) -> (bytes: Vec<u8>)
    ensures
        bytes@.len() == count,
{
    let mut bytes = vec![0u8; count];
    rand::thread_rng().fill_bytes(&mut bytes);
    bytes
}

/// `Aes256Gcm::encrypt` with no associated data: the ciphertext followed by
/// its 16-byte tag, or `None` where the cipher refuses the plaintext for its
/// length. What it gives is what `Aes256Gcm::decrypt` takes back to the
/// plaintext under the same key and nonce.
#[verifier::external_body]
pub(crate) fn aes256_gcm_encrypt(key: &[u8; 32], nonce: &[u8; 12], plaintext: &[u8]) -> (sealed: Option<Vec<u8>>)
    ensures
        match sealed {
            Some(c) => aes256_gcm_sealed(key@, nonce@, plaintext@) == Some(c@)
                && c@.len() == plaintext@.len() + 16
                && aes256_gcm_opened(key@, nonce@, c@) == Some(plaintext@),
            None => aes256_gcm_sealed(key@, nonce@, plaintext@) is None,
        },
{
    let cipher = Aes256Gcm::new(Key::<Aes256Gcm>::from_slice(key));
    cipher.encrypt(Nonce::from_slice(nonce), plaintext).ok()
}

/// `Aes256Gcm::decrypt` with no associated data: the plaintext, or `None`
/// where the tag does not authenticate the ciphertext.
#[verifier::external_body]
pub(crate) fn aes256_gcm_decrypt(key: &[u8; 32], nonce: &[u8; 12], sealed: &[u8]) -> (plaintext: Option<Vec<u8>>)
    ensures
        match plaintext {
            Some(p) => aes256_gcm_opened(key@, nonce@, sealed@) == Some(p@),
            None => aes256_gcm_opened(key@, nonce@, sealed@) is None,
        },
{
    let cipher = Aes256Gcm::new(Key::<Aes256Gcm>::from_slice(key));
    cipher.decrypt(Nonce::from_slice(nonce), sealed).ok()
}

/// `chrono::Utc::now().timestamp()`: seconds since the Unix epoch, by the
/// machine's clock. Nothing is known of the value.
#[verifier::external_body]
pub(crate) fn unix_time_now() -> (seconds: i64)
{
    chrono::Utc::now().timestamp()
}

} // verus!
