//! Key types: the long-term Ed25519 identity, Curve25519 key pairs for
//! Diffie-Hellman, and the prekey records that are published or stored.
//!
//! Keys are held as plain bytes. A key pair is *matched* when its public half
//! is the one that belongs to its secret half; pairs made by `generate` are
//! matched, pairs restored from bytes are as the caller gave them.

use vstd::prelude::*;
use vstd::slice::slice_subrange;
use vstd::array::array_as_slice;
use vstd::string::*;
use crate::bytes::{array32_from_slice, array64_from_slice, vec_from_array32, vec_from_array64};
use crate::encoding::{
    hex_alphabet, hex_encode, hex_encoding, lemma_hex_is_lowercase, lemma_hex_round_trip,
};
use crate::errors::{CryptoError, CryptoResult};
use crate::primitives::{
    curve_secret_of_seed, ed25519_accepts, ed25519_check_key, ed25519_key_valid, ed25519_public,
    ed25519_public_key, ed25519_random_seed, ed25519_sign, ed25519_signature, ed25519_verify,
    montgomery_of_edwards, sha256, sha256_digest,
    unix_time_now, x25519, x25519_public, x25519_public_key, x25519_random_secret,
    x25519_shared_secret,
};

verus! {

/// The fingerprint of an identity public key: the first 8 bytes of its
/// SHA-256 digest in lowercase hexadecimal.
pub open spec fn fingerprint_of(identity_public: Seq<u8>) -> Seq<char> {
    hex_encoding(sha256_digest(identity_public).subrange(0, 8))
}

/// Whether a key created at `created_at` is older than `max_age_days` days
/// of 86400 seconds at time `now`, both in seconds since the epoch.
pub open spec fn older_than(created_at: int, now: int, max_age_days: int) -> bool {
    now - created_at > max_age_days * 86400
}

/// Computes a fingerprint.
pub fn fingerprint(identity_public: &[u8]) -> (text: String)
    ensures
        text@ == fingerprint_of(identity_public@),
        text@.len() == 16,
        forall|i: int| 0 <= i < 16 ==> hex_alphabet().contains(#[trigger] text@[i]),
{
    let digest = sha256(identity_public);
    let text = hex_encode(slice_subrange(array_as_slice(&digest), 0, 8));
    proof {
        lemma_hex_round_trip(digest@.subrange(0, 8));
        lemma_hex_is_lowercase(digest@.subrange(0, 8));
    }
    text
}

/// The long-term identity key pair (Ed25519). It signs prekeys and names the
/// account.
pub struct IdentityKeyPair {
    /// Public key, safe to share.
    pub public: [u8; 32],
    secret: [u8; 32],
}

impl IdentityKeyPair {
    /// The 32-byte public key.
    pub closed spec fn public_bytes(&self) -> Seq<u8> {
        self.public@
    }

    /// The 32-byte seed.
    pub closed spec fn secret_bytes(&self) -> Seq<u8> {
        self.secret@
    }

    /// The public key is the one that belongs to the seed.
    pub open spec fn is_matched(&self) -> bool {
        self.public_bytes() == ed25519_public(self.secret_bytes())
    }

    /// The two views of the identity are one key: the Curve25519 form of
    /// the public key is the X25519 public key of the seed's Curve25519
    /// secret.
    pub open spec fn views_agree(&self) -> bool {
        montgomery_of_edwards(self.public_bytes()) == Some(
            x25519_public(curve_secret_of_seed(self.secret_bytes())),
        )
    }

    /// A fresh random identity. Its public key belongs to its seed and
    /// decodes, and its two views agree.
    pub fn generate() -> (pair: Self)
        ensures
            pair.is_matched(),
            ed25519_key_valid(pair.public_bytes()),
            pair.views_agree(),
    {
        let secret = ed25519_random_seed();
        let public = ed25519_public_key(&secret);
        IdentityKeyPair { public, secret }
    }

    /// Restores an identity from stored bytes. Both halves must be 32 bytes
    /// and the public half must decode to a key.
    pub fn from_bytes(public_bytes: &[u8], secret_bytes: &[u8]) -> (r: CryptoResult<Self>)
        ensures
            r is Ok <==> public_bytes@.len() == 32 && secret_bytes@.len() == 32
                && ed25519_key_valid(public_bytes@),
            r is Ok ==> r->Ok_0.public_bytes() == public_bytes@ && r->Ok_0.secret_bytes()
                == secret_bytes@,
            r is Err ==> r->Err_0 is InvalidKey,
    {
        let public = match array32_from_slice(public_bytes) {
            Some(a) => a,
            None => {
                return Err(CryptoError::InvalidKey(String::from_str("Public key must be 32 bytes")));
            },
        };
        let secret = match array32_from_slice(secret_bytes) {
            Some(a) => a,
            None => {
                return Err(CryptoError::InvalidKey(String::from_str("Secret key must be 32 bytes")));
            },
        };
        if !ed25519_check_key(&public) {
            return Err(CryptoError::InvalidKey(String::from_str("Public key is not a valid point")));
        }
        Ok(IdentityKeyPair { public, secret })
    }

    /// Signs a message: a detached 64-byte signature.
    pub fn sign(&self, message: &[u8]) -> (signature: Vec<u8>)
        ensures
            signature@ == ed25519_signature(self.secret_bytes(), message@),
            signature@.len() == 64,
            ed25519_accepts(ed25519_public(self.secret_bytes()), message@, signature@),
    {
        let signature = ed25519_sign(&self.secret, message);
        vec_from_array64(&signature)
    }

    /// The public key.
    pub fn public_key(&self) -> (key: [u8; 32])
        ensures
            key@ == self.public_bytes(),
    {
        self.public
    }

    /// The public key bytes.
    pub fn public_key_bytes(&self) -> (bytes: Vec<u8>)
        ensures
            bytes@ == self.public_bytes(),
            bytes@.len() == 32,
    {
        vec_from_array32(&self.public)
    }

    /// The secret key bytes, for secure storage.
    pub fn secret_key_bytes(&self) -> (bytes: Vec<u8>)
        ensures
            bytes@ == self.secret_bytes(),
            bytes@.len() == 32,
    {
        vec_from_array32(&self.secret)
    }

    /// The fingerprint by which a correspondent verifies this identity.
    pub fn fingerprint(&self) -> (text: String)
        ensures
            text@ == fingerprint_of(self.public_bytes()),
            text@.len() == 16,
    {
        fingerprint(array_as_slice(&self.public))
    }
}

/// A Curve25519 key pair for Diffie-Hellman: ephemeral keys, ratchet keys,
/// signed prekeys and one-time prekeys.
pub struct Curve25519KeyPair {
    /// Public key, safe to share.
    pub public: [u8; 32],
    secret: [u8; 32],
}

impl Curve25519KeyPair {
    /// The 32-byte public key.
    pub closed spec fn public_bytes(&self) -> Seq<u8> {
        self.public@
    }

    /// The 32-byte secret.
    pub closed spec fn secret_bytes(&self) -> Seq<u8> {
        self.secret@
    }

    /// The public key is the one that belongs to the secret.
    pub open spec fn is_matched(&self) -> bool {
        self.public_bytes() == x25519_public(self.secret_bytes())
    }

    /// A fresh random key pair.
    pub fn generate() -> (pair: Self)
        ensures
            pair.is_matched(),
    {
        let secret = x25519_random_secret();
        let public = x25519_public_key(&secret);
        Curve25519KeyPair { public, secret }
    }

    /// The key pair that belongs to a given secret.
    pub fn from_secret(secret: [u8; 32]) -> (pair: Self)
        ensures
            pair.is_matched(),
            pair.secret_bytes() == secret@,
    {
        let public = x25519_public_key(&secret);
        Curve25519KeyPair { public, secret }
    }

    /// Restores a key pair from stored bytes. Both halves must be 32 bytes.
    pub fn from_bytes(public_bytes: &[u8], secret_bytes: &[u8]) -> (r: CryptoResult<Self>)
        ensures
            r is Ok <==> public_bytes@.len() == 32 && secret_bytes@.len() == 32,
            r is Ok ==> r->Ok_0.public_bytes() == public_bytes@ && r->Ok_0.secret_bytes()
                == secret_bytes@,
            r is Err ==> r->Err_0 is InvalidKey,
    {
        let public = match array32_from_slice(public_bytes) {
            Some(a) => a,
            None => {
                return Err(CryptoError::InvalidKey(String::from_str("Public key must be 32 bytes")));
            },
        };
        let secret = match array32_from_slice(secret_bytes) {
            Some(a) => a,
            None => {
                return Err(CryptoError::InvalidKey(String::from_str("Secret key must be 32 bytes")));
            },
        };
        Ok(Curve25519KeyPair { public, secret })
    }

    /// Diffie-Hellman with a peer's public key: the raw shared point. Where
    /// this pair is matched, it is the point that the owner of the peer's
    /// key gets with our public key.
    pub fn diffie_hellman(&self, their_public: &[u8; 32]) -> (shared: [u8; 32])
        ensures
            shared@ == x25519(self.secret_bytes(), their_public@),
            self.is_matched() ==> forall|their_secret: Seq<u8>|
                their_secret.len() == 32 && their_public@ == #[trigger] x25519_public(their_secret)
                    ==> shared@ == x25519(
                    their_secret,
                    self.public_bytes(),
                ),
    {
        x25519_shared_secret(&self.secret, their_public)
    }

    /// The public key.
    pub fn public_key(&self) -> (key: [u8; 32])
        ensures
            key@ == self.public_bytes(),
    {
        self.public
    }

    /// The public key bytes.
    pub fn public_key_bytes(&self) -> (bytes: Vec<u8>)
        ensures
            bytes@ == self.public_bytes(),
            bytes@.len() == 32,
    {
        vec_from_array32(&self.public)
    }

    /// The secret key bytes, for secure storage.
    pub fn secret_key_bytes(&self) -> (bytes: Vec<u8>)
        ensures
            bytes@ == self.secret_bytes(),
            bytes@.len() == 32,
    {
        vec_from_array32(&self.secret)
    }

    /// A copy of this key pair.
    pub fn duplicate(&self) -> (pair: Self)
        ensures
            pair == *self,
    {
        Curve25519KeyPair { public: self.public, secret: self.secret }
    }
}

/// A signed prekey as published: a Curve25519 public key with the owner's
/// Ed25519 signature over it. Rotated about once a week.
#[derive(Debug, Clone)]
pub struct SignedPreKey {
    /// Identifier of this prekey.
    pub key_id: u32,
    /// The Curve25519 public key.
    pub public_key: Vec<u8>,
    /// Ed25519 signature over the public key.
    pub signature: Vec<u8>,
    /// Unix time of creation, in seconds.
    pub created_at: i64,
}

impl SignedPreKey {
    /// Whether the record carries a signature that `identity_public` accepts
    /// for its public key.
    pub open spec fn signed_by(&self, identity_public: Seq<u8>) -> bool {
        &&& self.signature@.len() == 64
        &&& ed25519_key_valid(identity_public)
        &&& ed25519_accepts(identity_public, self.public_key@, self.signature@)
    }

    /// Signs the public half of `key_pair` with `identity`, stamped with the
    /// given creation time.
    pub fn new_at(key_id: u32, key_pair: &Curve25519KeyPair, identity: &IdentityKeyPair, created_at: i64) -> (record: Self)
        ensures
            record.key_id == key_id,
            record.public_key@ == key_pair.public_bytes(),
            record.signature@ == ed25519_signature(identity.secret_bytes(), key_pair.public_bytes()),
            record.created_at == created_at,
            identity.is_matched() && ed25519_key_valid(identity.public_bytes()) ==> record.signed_by(
                identity.public_bytes(),
            ),
    {
        let public_key = key_pair.public_key_bytes();
        let signature = identity.sign(public_key.as_slice());
        SignedPreKey { key_id, public_key, signature, created_at }
    }

    /// Signs the public half of `key_pair` with `identity`, stamped with the
    /// current time.
    pub fn new(key_id: u32, key_pair: &Curve25519KeyPair, identity: &IdentityKeyPair) -> (record: Self)
        ensures
            record.key_id == key_id,
            record.public_key@ == key_pair.public_bytes(),
            record.signature@ == ed25519_signature(identity.secret_bytes(), key_pair.public_bytes()),
            identity.is_matched() && ed25519_key_valid(identity.public_bytes()) ==> record.signed_by(
                identity.public_bytes(),
            ),
    {
        Self::new_at(key_id, key_pair, identity, unix_time_now())
    }

    /// Checks the signature under an identity public key. Bytes that are no
    /// public key are an invalid key; a signature of the wrong length, or one
    /// that the key does not accept, is a signature error.
    pub fn verify(&self, identity_public: &[u8; 32]) -> (r: CryptoResult<()>)
        ensures
            r is Ok <==> self.signed_by(identity_public@),
            r is Err ==> (r->Err_0 is InvalidKey <==> !ed25519_key_valid(identity_public@)),
            r is Err ==> (r->Err_0 is SignatureError <==> ed25519_key_valid(identity_public@)),
    {
        if !ed25519_check_key(identity_public) {
            return Err(CryptoError::InvalidKey(String::from_str("Identity key is not a valid point")));
        }
        let signature = match array64_from_slice(self.signature.as_slice()) {
            Some(s) => s,
            None => {
                return Err(CryptoError::SignatureError(String::from_str("Invalid signature format")));
            },
        };
        if ed25519_verify(identity_public, self.public_key.as_slice(), &signature) {
            Ok(())
        } else {
            Err(CryptoError::SignatureError(String::from_str("Signature verification failed")))
        }
    }

    /// Whether this prekey is older than `max_age_days` days at time `now`.
    pub fn is_expired_at(&self, now: i64, max_age_days: i64) -> (expired: bool)
        ensures
            expired == older_than(self.created_at as int, now as int, max_age_days as int),
    {
        let age: i128 = now as i128 - self.created_at as i128;
        let limit: i128 = max_age_days as i128 * 86400;
        age > limit
    }

    /// Whether this prekey is older than `max_age_days` days by the machine's
    /// clock.
    pub fn is_expired(&self, max_age_days: i64) -> (expired: bool)
        ensures
            exists|now: i64| expired == older_than(self.created_at as int, now as int, max_age_days as int),
    {
        let now = unix_time_now();
        self.is_expired_at(now, max_age_days)
    }

    /// The Curve25519 public key, if the record holds 32 bytes.
    pub fn get_public_key(&self) -> (r: CryptoResult<[u8; 32]>)
        ensures
            r is Ok <==> self.public_key@.len() == 32,
            r is Ok ==> r->Ok_0@ == self.public_key@,
            r is Err ==> r->Err_0 is InvalidKey,
    {
        match array32_from_slice(self.public_key.as_slice()) {
            Some(key) => Ok(key),
            None => Err(CryptoError::InvalidKey(String::from_str("Key must be 32 bytes"))),
        }
    }
}

/// A one-time prekey as published: used for a single handshake, then gone.
#[derive(Debug, Clone)]
pub struct OneTimePreKey {
    /// Identifier of this prekey.
    pub key_id: u32,
    /// The Curve25519 public key.
    pub public_key: Vec<u8>,
}

impl OneTimePreKey {
    /// The public record of a key pair.
    pub fn new(key_id: u32, key_pair: &Curve25519KeyPair) -> (record: Self)
        ensures
            record.key_id == key_id,
            record.public_key@ == key_pair.public_bytes(),
    {
        OneTimePreKey { key_id, public_key: key_pair.public_key_bytes() }
    }

    /// The Curve25519 public key, if the record holds 32 bytes.
    pub fn get_public_key(&self) -> (r: CryptoResult<[u8; 32]>)
        ensures
            r is Ok <==> self.public_key@.len() == 32,
            r is Ok ==> r->Ok_0@ == self.public_key@,
            r is Err ==> r->Err_0 is InvalidKey,
    {
        match array32_from_slice(self.public_key.as_slice()) {
            Some(key) => Ok(key),
            None => Err(CryptoError::InvalidKey(String::from_str("Key must be 32 bytes"))),
        }
    }
}

/// A prekey with its secret half, as kept in local storage.
pub struct StoredPreKey {
    /// Identifier of this prekey.
    pub key_id: u32,
    /// Public key bytes.
    pub public_key: Vec<u8>,
    /// Secret key bytes; sealed before they reach storage.
    pub secret_key: Vec<u8>,
    /// Whether this is a signed prekey rather than a one-time prekey.
    pub is_signed: bool,
}

impl StoredPreKey {
    /// The stored form of a key pair.
    pub fn from_keypair(key_id: u32, key_pair: &Curve25519KeyPair, is_signed: bool) -> (stored: Self)
        ensures
            stored.key_id == key_id,
            stored.public_key@ == key_pair.public_bytes(),
            stored.secret_key@ == key_pair.secret_bytes(),
            stored.public_key@.len() == 32,
            stored.secret_key@.len() == 32,
            stored.is_signed == is_signed,
    {
        StoredPreKey {
            key_id,
            public_key: key_pair.public_key_bytes(),
            secret_key: key_pair.secret_key_bytes(),
            is_signed,
        }
    }

    /// The key pair that was stored. Both halves must be 32 bytes.
    pub fn to_keypair(&self) -> (r: CryptoResult<Curve25519KeyPair>)
        ensures
            r is Ok <==> self.public_key@.len() == 32 && self.secret_key@.len() == 32,
            r is Ok ==> r->Ok_0.public_bytes() == self.public_key@ && r->Ok_0.secret_bytes()
                == self.secret_key@,
            r is Err ==> r->Err_0 is InvalidKey,
    {
        Curve25519KeyPair::from_bytes(self.public_key.as_slice(), self.secret_key.as_slice())
    }
}

/// Both halves of a Curve25519 key pair have 32 bytes.
pub proof fn lemma_curve_key_lengths(pair: Curve25519KeyPair)
    ensures
        pair.public_bytes().len() == 32,
        pair.secret_bytes().len() == 32,
{
}

/// Both halves of an identity key pair have 32 bytes.
pub proof fn lemma_identity_key_lengths(pair: IdentityKeyPair)
    ensures
        pair.public_bytes().len() == 32,
        pair.secret_bytes().len() == 32,
{
}

/// Storing a key pair and restoring it gives the same key pair back.
pub proof fn lemma_stored_prekey_round_trip(stored: StoredPreKey, original: Curve25519KeyPair, restored: Curve25519KeyPair)
    requires
        stored.public_key@ == original.public_bytes(),
        stored.secret_key@ == original.secret_bytes(),
        restored.public_bytes() == stored.public_key@,
        restored.secret_bytes() == stored.secret_key@,
    ensures
        restored == original,
{
    vstd::array::axiom_array_ext_equal(restored.public, original.public);
    vstd::array::axiom_array_ext_equal(restored.secret, original.secret);
}

} // verus!
