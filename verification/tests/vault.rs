use nochat_crypto::errors::CryptoError;
use nochat_crypto::keys::{Curve25519KeyPair, IdentityKeyPair, StoredPreKey};
use nochat_crypto::sessions::{
    identity_key_from_row, identity_key_row, one_time_prekey_row_id, open_blob, open_text,
    prekey_from_row, prekey_row, seal_blob, seal_blob_with, seal_to_text, signed_prekey_row_id,
    KeyType,
};
use base64::Engine;

#[test]
fn sealed_blob_opens_to_the_plaintext() {
    let key = [7u8; 32];
    let blob = seal_blob(&key, b"secret state").unwrap();
    assert_eq!(blob.len(), 12 + 12 + 16);
    assert_ne!(&blob[12..24], b"secret state");
    assert_eq!(open_blob(&key, &blob).unwrap(), b"secret state");
    let empty = seal_blob(&key, b"").unwrap();
    assert_eq!(empty.len(), 28);
    assert_eq!(open_blob(&key, &empty).unwrap(), b"");
}

#[test]
fn sealing_draws_a_fresh_nonce() {
    let key = [7u8; 32];
    let first = seal_blob(&key, b"same").unwrap();
    let second = seal_blob(&key, b"same").unwrap();
    assert_ne!(first, second);
    assert_ne!(first[..12], second[..12]);
}

#[test]
fn sealing_with_a_nonce_starts_with_it() {
    let key = [7u8; 32];
    let nonce = [9u8; 12];
    let first = seal_blob_with(&key, &nonce, b"same").unwrap();
    let second = seal_blob_with(&key, &nonce, b"same").unwrap();
    assert_eq!(first, second);
    assert_eq!(first[..12], nonce);
    assert_eq!(open_blob(&key, &first).unwrap(), b"same");
}

#[test]
fn tampered_or_foreign_blob_is_vault_corruption() {
    let key = [7u8; 32];
    let blob = seal_blob(&key, b"secret state").unwrap();
    for at in [0usize, 11, 12, 20, blob.len() - 1] {
        let mut bad = blob.clone();
        bad[at] ^= 1;
        assert!(matches!(open_blob(&key, &bad), Err(CryptoError::VaultError(_))));
    }
    assert!(matches!(open_blob(&[8u8; 32], &blob), Err(CryptoError::VaultError(_))));
    assert!(matches!(open_blob(&key, &blob[..11]), Err(CryptoError::VaultError(_))));
    assert!(matches!(open_blob(&key, &blob[..27]), Err(CryptoError::VaultError(_))));
    assert!(matches!(open_blob(&key, &[]), Err(CryptoError::VaultError(_))));
}

#[test]
fn sealed_text_is_base64_of_the_blob() {
    let key = [1u8; 32];
    let text = seal_to_text(&key, b"abc").unwrap();
    let blob = base64::engine::general_purpose::STANDARD.decode(&text).unwrap();
    assert_eq!(open_blob(&key, &blob).unwrap(), b"abc");
    assert_eq!(open_text(&key, &text).unwrap(), b"abc");
    assert!(matches!(open_text(&key, "not base64!"), Err(CryptoError::SerializationError(_))));
    let foreign = base64::engine::general_purpose::STANDARD.encode([0u8; 40]);
    assert!(matches!(open_text(&key, &foreign), Err(CryptoError::VaultError(_))));
}

#[test]
fn row_ids_carry_the_key_id_in_decimal() {
    assert_eq!(signed_prekey_row_id(42), "signed_prekey_42");
    assert_eq!(signed_prekey_row_id(0), "signed_prekey_0");
    assert_eq!(one_time_prekey_row_id(0), "otk_0");
    assert_eq!(one_time_prekey_row_id(7), "otk_7");
    assert_eq!(one_time_prekey_row_id(10), "otk_10");
    assert_eq!(one_time_prekey_row_id(1009), "otk_1009");
    assert_eq!(one_time_prekey_row_id(u32::MAX), "otk_4294967295");
    assert_eq!(KeyType::Identity.name(), "identity");
    assert_eq!(KeyType::SignedPrekey.name(), "signed_prekey");
    assert_eq!(KeyType::OneTimePrekey.name(), "one_time_prekey");
}

#[test]
fn identity_row_keeps_the_secret_sealed_and_reads_back() {
    let key = [3u8; 32];
    let identity = IdentityKeyPair::generate();
    let row = identity_key_row(&key, &identity).unwrap();
    assert_eq!(row.id, "identity");
    assert_eq!(row.key_type, KeyType::Identity);
    assert_eq!(row.public_key, hex::encode(identity.public));
    assert!(row.signature.is_none());
    assert!(row.key_id.is_none());
    let stored = base64::engine::general_purpose::STANDARD.decode(&row.private_key).unwrap();
    let secret = identity.secret_key_bytes();
    assert!(!stored.windows(secret.len()).any(|w| w == secret.as_slice()));

    let back = identity_key_from_row(&key, &row.public_key, &row.private_key).unwrap();
    assert_eq!(back.public, identity.public);
    assert_eq!(back.secret_key_bytes(), secret);
    let upper = row.public_key.to_uppercase();
    assert_eq!(identity_key_from_row(&key, &upper, &row.private_key).unwrap().public, identity.public);
}

#[test]
fn identity_row_errors_name_the_stage() {
    let key = [3u8; 32];
    let identity = IdentityKeyPair::generate();
    let row = identity_key_row(&key, &identity).unwrap();
    assert!(matches!(
        identity_key_from_row(&key, "zz", &row.private_key),
        Err(CryptoError::SerializationError(_))
    ));
    assert!(matches!(
        identity_key_from_row(&key, "abc", &row.private_key),
        Err(CryptoError::SerializationError(_))
    ));
    assert!(matches!(
        identity_key_from_row(&key, &row.public_key, "%%%"),
        Err(CryptoError::SerializationError(_))
    ));
    assert!(matches!(
        identity_key_from_row(&[4u8; 32], &row.public_key, &row.private_key),
        Err(CryptoError::VaultError(_))
    ));
    assert!(matches!(
        identity_key_from_row(&key, &row.public_key[..62], &row.private_key),
        Err(CryptoError::InvalidKey(_))
    ));
    let short_secret = seal_to_text(&key, &[1u8; 31]).unwrap();
    assert!(matches!(
        identity_key_from_row(&key, &row.public_key, &short_secret),
        Err(CryptoError::InvalidKey(_))
    ));
}

#[test]
fn prekey_rows_read_back() {
    let key = [3u8; 32];
    let pair = Curve25519KeyPair::generate();
    let signed = StoredPreKey::from_keypair(4, &pair, true);
    let row = prekey_row(&key, &signed, &[5u8; 64], 1234).unwrap();
    assert_eq!(row.id, "signed_prekey_4");
    assert_eq!(row.key_type, KeyType::SignedPrekey);
    assert_eq!(row.public_key, hex::encode(pair.public));
    assert_eq!(row.key_id, Some(4));
    assert_eq!(row.created_at, Some(1234));
    assert_eq!(
        row.signature,
        Some(base64::engine::general_purpose::STANDARD.encode([5u8; 64]))
    );
    let back = prekey_from_row(&key, 4, true, &row.public_key, &row.private_key).unwrap();
    assert_eq!(back.key_id, 4);
    assert!(back.is_signed);
    assert_eq!(back.public_key, pair.public.to_vec());
    assert_eq!(back.secret_key, pair.secret_key_bytes());
    let restored = back.to_keypair().unwrap();
    assert_eq!(restored.public, pair.public);

    let one_time = StoredPreKey::from_keypair(17, &pair, false);
    let row = prekey_row(&key, &one_time, &[], 0).unwrap();
    assert_eq!(row.id, "otk_17");
    assert_eq!(row.key_type, KeyType::OneTimePrekey);
    assert!(row.signature.is_none());
    assert!(row.created_at.is_none());
    assert!(matches!(
        prekey_from_row(&[0u8; 32], 17, false, &row.public_key, &row.private_key),
        Err(CryptoError::VaultError(_))
    ));
    assert!(matches!(
        prekey_from_row(&key, 17, false, "0g", &row.private_key),
        Err(CryptoError::SerializationError(_))
    ));
}

#[test]
fn stored_prekey_needs_both_halves_whole() {
    let stored = StoredPreKey {
        key_id: 1,
        public_key: vec![1u8; 32],
        secret_key: vec![2u8; 31],
        is_signed: false,
    };
    assert!(matches!(stored.to_keypair(), Err(CryptoError::InvalidKey(_))));
}
