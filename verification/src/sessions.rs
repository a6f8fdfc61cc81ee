//! What goes into the vault: pickle keys and sealed blobs.
//!
//! Every secret is sealed under the pickle key before it reaches storage:
//! a fresh 12-byte nonce, then the AES-256-GCM ciphertext with its tag. A
//! blob that fails authentication on load is reported as vault corruption.

use vstd::prelude::*;
use vstd::slice::slice_subrange;
use vstd::array::array_as_slice;
use vstd::string::*;
use crate::bytes::{append_bytes, array12_from_slice, array32_from_slice, vec_from_array12};
use crate::encoding::{
    base64_decode, base64_decoding, base64_encode, decimal_encoding, decimal_text, hex_decode,
    hex_decoding, hex_encode, hex_encoding, lemma_hex_round_trip,
};
use crate::keys::{IdentityKeyPair, StoredPreKey};
use crate::errors::{CryptoError, CryptoResult};
use crate::primitives::{
    aes256_gcm_decrypt, aes256_gcm_encrypt, aes256_gcm_opened, aes256_gcm_sealed,
    ed25519_key_valid, hkdf_sha256, hkdf_sha256_32, random_bytes,
};

verus! {

/// Key under which session and account state is sealed before storage.
pub type PickleKey = [u8; 32];

/// Length of the nonce that opens every sealed blob.
pub const NONCE_LEN: usize = 12;

/// The info string of pickle-key derivation: the ASCII bytes of
/// `NoChat Pickle Key v1`.
pub open spec fn pickle_key_info() -> Seq<u8> {
    seq![
        78u8, 111u8, 67u8, 104u8, 97u8, 116u8, 32u8, 80u8, 105u8, 99u8, 107u8, 108u8, 101u8, 32u8,
        75u8, 101u8, 121u8, 32u8, 118u8, 49u8,
    ]
}

/// The pickle key that belongs to a device secret and a salt.
pub open spec fn pickle_key_of(secret: Seq<u8>, salt: Seq<u8>) -> Seq<u8> {
    hkdf_sha256_32(Some(salt), secret, pickle_key_info())
}

/// The blob that sealing `plaintext` under `key` with `nonce` gives.
pub open spec fn sealed_blob(key: Seq<u8>, nonce: Seq<u8>, plaintext: Seq<u8>) -> Option<Seq<u8>> {
    match aes256_gcm_sealed(key, nonce, plaintext) {
        Some(c) => Some(nonce + c),
        None => None,
    }
}

/// The plaintext that a blob holds under `key`; `None` where the blob is too
/// short to hold a nonce or does not authenticate.
pub open spec fn opened_blob(key: Seq<u8>, blob: Seq<u8>) -> Option<Seq<u8>> {
    if blob.len() < 12 {
        None
    } else {
        aes256_gcm_opened(key, blob.subrange(0, 12), blob.subrange(12, blob.len() as int))
    }
}

/// Derives the pickle key from a device secret and a salt with HKDF-SHA256.
pub fn derive_pickle_key(secret: &[u8], salt: &[u8]) -> (key: PickleKey)
    ensures
        key@ == pickle_key_of(secret@, salt@),
{
    let info: [u8; 20] = [
        78u8, 111u8, 67u8, 104u8, 97u8, 116u8, 32u8, 80u8, 105u8, 99u8, 107u8, 108u8, 101u8, 32u8,
        75u8, 101u8, 121u8, 32u8, 118u8, 49u8,
    ];
    assert(info@ =~= pickle_key_info());
    let derived = hkdf_sha256(Some(salt), secret, array_as_slice(&info));
    derived.unwrap()
}

/// A random pickle key, for an account without a device secret. It must be
/// generated once and kept in secure storage.
pub fn generate_pickle_key() -> (key: PickleKey)
{
    let bytes = random_bytes(32);
    let key = array32_from_slice(bytes.as_slice());
    key.unwrap()
}

/// Seals `plaintext` under `key` with the given nonce.
pub fn seal_blob_with(key: &PickleKey, nonce: &[u8; 12], plaintext: &[u8]) -> (r: CryptoResult<Vec<u8>>)
    ensures
        r is Ok <==> sealed_blob(key@, nonce@, plaintext@) is Some,
        r is Ok ==> Some(r->Ok_0@) == sealed_blob(key@, nonce@, plaintext@),
        r is Ok ==> opened_blob(key@, r->Ok_0@) == Some(plaintext@),
        r is Err ==> r->Err_0 is EncryptionError,
{
    match aes256_gcm_encrypt(key, nonce, plaintext) {
        Some(sealed) => {
            let mut blob = vec_from_array12(nonce);
            append_bytes(&mut blob, sealed.as_slice());
            assert(blob@.subrange(0, 12) =~= nonce@);
            assert(blob@.subrange(12, blob@.len() as int) =~= sealed@);
            Ok(blob)
        },
        None => Err(CryptoError::EncryptionError(String::from_str("AES-GCM operation failed"))),
    }
}

/// Seals `plaintext` under `key` with a fresh random nonce. Whatever nonce is
/// drawn, opening the blob under the same key gives the plaintext back.
pub fn seal_blob(key: &PickleKey, plaintext: &[u8]) -> (r: CryptoResult<Vec<u8>>)
    ensures
        r is Ok ==> opened_blob(key@, r->Ok_0@) == Some(plaintext@),
        r is Ok ==> exists|nonce: Seq<u8>| #[trigger] sealed_blob(key@, nonce, plaintext@) == Some(r->Ok_0@),
        r is Err ==> r->Err_0 is EncryptionError,
{
    let drawn = random_bytes(12);
    let nonce = array12_from_slice(drawn.as_slice()).unwrap();
    seal_blob_with(key, &nonce, plaintext)
}

/// Opens a sealed blob. A blob that is too short or does not authenticate
/// under `key` is vault corruption.
pub fn open_blob(key: &PickleKey, blob: &[u8]) -> (r: CryptoResult<Vec<u8>>)
    ensures
        r is Ok <==> opened_blob(key@, blob@) is Some,
        r is Ok ==> Some(r->Ok_0@) == opened_blob(key@, blob@),
        r is Err ==> r->Err_0 is VaultError,
{
    if blob.len() < NONCE_LEN {
        return Err(CryptoError::VaultError(String::from_str("Sealed blob too short")));
    }
    let nonce = array12_from_slice(slice_subrange(blob, 0, 12)).unwrap();
    match aes256_gcm_decrypt(key, &nonce, slice_subrange(blob, 12, blob.len())) {
        Some(plaintext) => Ok(plaintext),
        None => Err(CryptoError::VaultError(String::from_str("Sealed blob failed authentication"))),
    }
}

/// The plaintext that a sealed text holds under `key`: the text is standard
/// base64 of a sealed blob.
pub open spec fn unsealed_text(key: Seq<u8>, text: Seq<char>) -> Option<Seq<u8>> {
    match base64_decoding(text) {
        Some(blob) => opened_blob(key, blob),
        None => None,
    }
}

/// Seals `plaintext` under `key` and gives the blob as text. The text opens
/// under the same key to the plaintext.
pub fn seal_to_text(key: &PickleKey, plaintext: &[u8]) -> (r: CryptoResult<String>)
    ensures
        r is Ok ==> unsealed_text(key@, r->Ok_0@) == Some(plaintext@),
        r is Err ==> r->Err_0 is EncryptionError,
{
    match seal_blob(key, plaintext) {
        Ok(blob) => Ok(base64_encode(blob.as_slice())),
        Err(e) => Err(e),
    }
}

/// Opens a sealed text. Text that is not base64 is a serialization error; a
/// blob that does not authenticate is vault corruption.
pub fn open_text(key: &PickleKey, text: &str) -> (r: CryptoResult<Vec<u8>>)
    ensures
        r is Ok <==> unsealed_text(key@, text@) is Some,
        r is Ok ==> Some(r->Ok_0@) == unsealed_text(key@, text@),
        r is Err ==> (r->Err_0 is SerializationError <==> base64_decoding(text@) is None),
        r is Err ==> (r->Err_0 is VaultError <==> base64_decoding(text@) is Some),
{
    match base64_decode(text) {
        Some(blob) => open_blob(key, blob.as_slice()),
        None => Err(CryptoError::SerializationError(String::from_str("Sealed text is not base64"))),
    }
}

/// The kinds of key that the vault keeps.
#[derive(Debug, Clone, Copy, PartialEq, Eq, Structural)]
pub enum KeyType {
    /// The identity key.
    Identity,
    /// A signed prekey.
    SignedPrekey,
    /// A one-time prekey.
    OneTimePrekey,
}

/// A key as the vault keeps it: the public half in hexadecimal, the secret
/// half sealed under the pickle key.
#[derive(Debug)]
pub struct KeyRow {
    /// The row's id: `identity`, `signed_prekey_N` or `otk_N`.
    pub id: String,
    /// The kind of key.
    pub key_type: KeyType,
    /// The public key in lowercase hexadecimal.
    pub public_key: String,
    /// The secret key, sealed.
    pub private_key: String,
    /// The signature over the public key in base64, for a signed prekey.
    pub signature: Option<String>,
    /// The key's id, for a prekey.
    pub key_id: Option<u32>,
    /// Unix time of creation, for a signed prekey.
    pub created_at: Option<i64>,
}

/// The name of a kind of key in the vault.
pub open spec fn key_type_name(key_type: KeyType) -> Seq<char> {
    match key_type {
        KeyType::Identity => "identity"@,
        KeyType::SignedPrekey => "signed_prekey"@,
        KeyType::OneTimePrekey => "one_time_prekey"@,
    }
}

/// The id of the row of a signed prekey.
pub open spec fn signed_prekey_row_name(key_id: u32) -> Seq<char> {
    "signed_prekey_"@ + decimal_encoding(key_id as nat)
}

/// The id of the row of a one-time prekey.
pub open spec fn one_time_prekey_row_name(key_id: u32) -> Seq<char> {
    "otk_"@ + decimal_encoding(key_id as nat)
}

impl KeyType {
    /// The name of this kind of key in the vault.
    pub fn name(&self) -> (name: String)
        ensures
            name@ == key_type_name(*self),
    {
        match self {
            KeyType::Identity => String::from_str("identity"),
            KeyType::SignedPrekey => String::from_str("signed_prekey"),
            KeyType::OneTimePrekey => String::from_str("one_time_prekey"),
        }
    }
}

/// The id of the row of a signed prekey.
pub fn signed_prekey_row_id(key_id: u32) -> (id: String)
    ensures
        id@ == signed_prekey_row_name(key_id),
{
    let number = decimal_text(key_id);
    String::from_str("signed_prekey_").concat(number.as_str())
}

/// The id of the row of a one-time prekey.
pub fn one_time_prekey_row_id(key_id: u32) -> (id: String)
    ensures
        id@ == one_time_prekey_row_name(key_id),
{
    let number = decimal_text(key_id);
    String::from_str("otk_").concat(number.as_str())
}

/// Whether the two columns of a stored row hold an identity key: the public
/// column is the hexadecimal form of 32 bytes that decode to a key, and the
/// private column opens under the pickle key to 32 bytes.
pub open spec fn holds_identity(pickle_key: Seq<u8>, public_key: Seq<char>, private_key: Seq<char>) -> bool {
    &&& hex_decoding(public_key) is Some
    &&& unsealed_text(pickle_key, private_key) is Some
    &&& hex_decoding(public_key)->0.len() == 32
    &&& unsealed_text(pickle_key, private_key)->0.len() == 32
    &&& ed25519_key_valid(hex_decoding(public_key)->0)
}

/// The row of the identity key: its secret is sealed under the pickle key.
pub fn identity_key_row(pickle_key: &PickleKey, identity: &IdentityKeyPair) -> (r: CryptoResult<KeyRow>)
    ensures
        r is Ok ==> {
            let row = r->Ok_0;
            &&& row.id@ == "identity"@
            &&& row.key_type == KeyType::Identity
            &&& row.public_key@ == hex_encoding(identity.public_bytes())
            &&& unsealed_text(pickle_key@, row.private_key@) == Some(identity.secret_bytes())
            &&& row.signature is None
            &&& row.key_id is None
            &&& row.created_at is None
        },
        r is Err ==> r->Err_0 is EncryptionError,
{
    let secret = identity.secret_key_bytes();
    let private_key = match seal_to_text(pickle_key, secret.as_slice()) {
        Ok(t) => t,
        Err(e) => {
            return Err(e);
        },
    };
    let public = identity.public_key_bytes();
    Ok(
        KeyRow {
            id: String::from_str("identity"),
            key_type: KeyType::Identity,
            public_key: hex_encode(public.as_slice()),
            private_key,
            signature: None,
            key_id: None,
            created_at: None,
        },
    )
}

/// The identity key of a stored row.
///
/// A public key that is not hexadecimal, or a secret that is not base64,
/// is a serialization error; a secret that does not authenticate is vault
/// corruption; halves of the wrong length, or a public half that is no
/// key, are an invalid key.
pub fn identity_key_from_row(pickle_key: &PickleKey, public_key: &str, private_key: &str) -> (r: CryptoResult<IdentityKeyPair>)
    ensures
        r is Ok <==> holds_identity(pickle_key@, public_key@, private_key@),
        r is Ok ==> r->Ok_0.public_bytes() == hex_decoding(public_key@)->0 && r->Ok_0.secret_bytes()
            == unsealed_text(pickle_key@, private_key@)->0,
        r is Err ==> (r->Err_0 is SerializationError <==> hex_decoding(public_key@) is None
            || base64_decoding(private_key@) is None),
        r is Err ==> (r->Err_0 is VaultError <==> hex_decoding(public_key@) is Some
            && base64_decoding(private_key@) is Some && unsealed_text(pickle_key@, private_key@)
            is None),
        r is Err ==> (r->Err_0 is InvalidKey <==> hex_decoding(public_key@) is Some
            && unsealed_text(pickle_key@, private_key@) is Some),
{
    let public = match hex_decode(public_key) {
        Some(p) => p,
        None => {
            return Err(
                CryptoError::SerializationError(String::from_str("Failed to decode public key")),
            );
        },
    };
    let secret = match open_text(pickle_key, private_key) {
        Ok(s) => s,
        Err(e) => {
            return Err(e);
        },
    };
    IdentityKeyPair::from_bytes(public.as_slice(), secret.as_slice())
}

/// The row of a prekey: its secret is sealed under the pickle key. A signed
/// prekey is stored with its signature and creation time.
pub fn prekey_row(pickle_key: &PickleKey, prekey: &StoredPreKey, signature: &[u8], created_at: i64) -> (r: CryptoResult<KeyRow>)
    ensures
        r is Ok ==> {
            let row = r->Ok_0;
            &&& row.public_key@ == hex_encoding(prekey.public_key@)
            &&& unsealed_text(pickle_key@, row.private_key@) == Some(prekey.secret_key@)
            &&& row.key_id == Some(prekey.key_id)
            &&& if prekey.is_signed {
                &&& row.id@ == signed_prekey_row_name(prekey.key_id)
                &&& row.key_type == KeyType::SignedPrekey
                &&& row.signature is Some
                &&& base64_decoding(row.signature->0@) == Some(signature@)
                &&& row.created_at == Some(created_at)
            } else {
                &&& row.id@ == one_time_prekey_row_name(prekey.key_id)
                &&& row.key_type == KeyType::OneTimePrekey
                &&& row.signature is None
                &&& row.created_at is None
            }
        },
        r is Err ==> r->Err_0 is EncryptionError,
{
    let private_key = match seal_to_text(pickle_key, prekey.secret_key.as_slice()) {
        Ok(t) => t,
        Err(e) => {
            return Err(e);
        },
    };
    let public_key = hex_encode(prekey.public_key.as_slice());
    if prekey.is_signed {
        Ok(
            KeyRow {
                id: signed_prekey_row_id(prekey.key_id),
                key_type: KeyType::SignedPrekey,
                public_key,
                private_key,
                signature: Some(base64_encode(signature)),
                key_id: Some(prekey.key_id),
                created_at: Some(created_at),
            },
        )
    } else {
        Ok(
            KeyRow {
                id: one_time_prekey_row_id(prekey.key_id),
                key_type: KeyType::OneTimePrekey,
                public_key,
                private_key,
                signature: None,
                key_id: Some(prekey.key_id),
                created_at: None,
            },
        )
    }
}

/// The prekey of a stored row, with its secret opened.
///
/// A public key that is not hexadecimal, or a secret that is not base64, is
/// a serialization error; a secret that does not authenticate is vault
/// corruption.
pub fn prekey_from_row(pickle_key: &PickleKey, key_id: u32, is_signed: bool, public_key: &str, private_key: &str) -> (r: CryptoResult<StoredPreKey>)
    ensures
        r is Ok <==> hex_decoding(public_key@) is Some && unsealed_text(pickle_key@, private_key@)
            is Some,
        r is Ok ==> {
            &&& r->Ok_0.key_id == key_id
            &&& r->Ok_0.is_signed == is_signed
            &&& Some(r->Ok_0.public_key@) == hex_decoding(public_key@)
            &&& Some(r->Ok_0.secret_key@) == unsealed_text(pickle_key@, private_key@)
        },
        r is Err ==> (r->Err_0 is SerializationError <==> hex_decoding(public_key@) is None
            || base64_decoding(private_key@) is None),
        r is Err ==> (r->Err_0 is VaultError <==> hex_decoding(public_key@) is Some
            && base64_decoding(private_key@) is Some),
{
    let public = match hex_decode(public_key) {
        Some(p) => p,
        None => {
            return Err(
                CryptoError::SerializationError(String::from_str("Failed to decode public key")),
            );
        },
    };
    let secret = match open_text(pickle_key, private_key) {
        Ok(s) => s,
        Err(e) => {
            return Err(e);
        },
    };
    Ok(StoredPreKey { key_id, public_key: public, secret_key: secret, is_signed })
}

/// What is written for an identity is what is read back: a row whose
/// public column is the hexadecimal form of a valid 32-byte key, and whose
/// private column opens under the pickle key to a 32-byte seed, holds an
/// identity, and its columns decode to that key and that seed.
pub proof fn lemma_identity_row_round_trip(pickle_key: Seq<u8>, public: Seq<u8>, secret: Seq<u8>, public_key: Seq<char>, private_key: Seq<char>)
    requires
        public.len() == 32,
        secret.len() == 32,
        ed25519_key_valid(public),
        public_key == hex_encoding(public),
        unsealed_text(pickle_key, private_key) == Some(secret),
    ensures
        holds_identity(pickle_key, public_key, private_key),
        hex_decoding(public_key) == Some(public),
{
    lemma_hex_round_trip(public);
}

} // verus!
