use nochat_crypto::errors::CryptoError;
use nochat_crypto::keys::{fingerprint, Curve25519KeyPair, IdentityKeyPair, SignedPreKey};
use nochat_crypto::sessions::derive_pickle_key;
use nochat_crypto::x3dh::{
    convert_ed25519_to_curve25519_public, convert_ed25519_to_curve25519_secret, kdf_x3dh,
};

fn bytes32(text: &str) -> [u8; 32] {
    hex::decode(text).unwrap().as_slice().try_into().unwrap()
}

#[test]
fn fingerprint_of_known_keys() {
    assert_eq!(fingerprint(&[0u8; 32]), "66687aadf862bd77");
    assert_eq!(fingerprint(&[0xabu8; 32]), "9a2db2e23f1504cd");
}

#[test]
fn fingerprint_is_stable_and_sixteen_hex_digits() {
    let key = IdentityKeyPair::generate();
    let first = key.fingerprint();
    let second = key.fingerprint();
    assert_eq!(first, second);
    assert_eq!(first, fingerprint(&key.public));
    assert_eq!(first.len(), 16);
    assert!(first.chars().all(|c| c.is_ascii_digit() || ('a'..='f').contains(&c)));
}

#[test]
fn x25519_public_key_of_known_secret() {
    let secret = bytes32("77076d0a7318a57d3c16c17251b26645df4c2f87ebc0992ab177fba51db92c2a");
    let pair = Curve25519KeyPair::from_secret(secret);
    assert_eq!(
        pair.public,
        bytes32("8520f0098930a754748b7ddcb43ef75a0dbf3a0d26381af4eba4a98eaa9b4e6a")
    );
    assert_eq!(pair.secret_key_bytes(), secret.to_vec());
}

#[test]
fn x25519_shared_secret_of_known_keys() {
    let alice = Curve25519KeyPair::from_secret(bytes32(
        "77076d0a7318a57d3c16c17251b26645df4c2f87ebc0992ab177fba51db92c2a",
    ));
    let bob_public = bytes32("de9edb7d7b7dc1b4d35b61c2ece435373f8343c85b78674dadfc7e146f882b4f");
    assert_eq!(
        alice.diffie_hellman(&bob_public),
        bytes32("4a5d9d5ba4ce2de1728e3bf480350f25e07e21c947d19e3376f09b3c1e161742")
    );
}

#[test]
fn ed25519_signature_of_known_key() {
    let seed = bytes32("9d61b19deffd5a60ba844af492ec2cc44449c5697b326919703bac031cae7f60");
    let public = bytes32("d75a980182b10ab7d54bfed3c964073a0ee172f3daa62325af021a68f707511a");
    let identity = IdentityKeyPair::from_bytes(&public, &seed).unwrap();
    let expected = hex::decode(
        "e5564300c360ac729086e2cc806e828a84877f1eb8e5d974d873e065224901555fb8821590a33bacc61e39701cf9b46bd25bf5f0595bbe24655141438e7a100b",
    )
    .unwrap();
    assert_eq!(identity.sign(&[]), expected);
}

#[test]
fn identity_from_bytes_checks_lengths_and_point() {
    let seed = [1u8; 32];
    let good = IdentityKeyPair::generate();
    assert!(IdentityKeyPair::from_bytes(&good.public, &seed).is_ok());
    assert!(matches!(
        IdentityKeyPair::from_bytes(&good.public[..31], &seed),
        Err(CryptoError::InvalidKey(_))
    ));
    assert!(matches!(
        IdentityKeyPair::from_bytes(&good.public, &seed[..31]),
        Err(CryptoError::InvalidKey(_))
    ));
    let mut off_curve = [0u8; 32];
    off_curve[0] = 2;
    assert!(matches!(
        IdentityKeyPair::from_bytes(&off_curve, &seed),
        Err(CryptoError::InvalidKey(_))
    ));
}

#[test]
fn curve_key_pair_from_bytes_checks_lengths() {
    let pair = Curve25519KeyPair::from_bytes(&[5u8; 32], &[6u8; 32]).unwrap();
    assert_eq!(pair.public, [5u8; 32]);
    assert_eq!(pair.secret_key_bytes(), vec![6u8; 32]);
    assert!(matches!(
        Curve25519KeyPair::from_bytes(&[5u8; 33], &[6u8; 32]),
        Err(CryptoError::InvalidKey(_))
    ));
    assert!(matches!(
        Curve25519KeyPair::from_bytes(&[5u8; 32], &[]),
        Err(CryptoError::InvalidKey(_))
    ));
}

#[test]
fn key_derivation_of_known_exchanges() {
    let three = kdf_x3dh(&[1u8; 32], &[2u8; 32], &[3u8; 32], None).unwrap();
    assert_eq!(
        three,
        [
            114, 116, 168, 190, 19, 159, 139, 176, 230, 39, 140, 163, 86, 132, 224, 135, 11, 140,
            100, 50, 123, 98, 50, 211, 104, 254, 39, 254, 100, 118, 159, 97
        ]
    );
    let four = kdf_x3dh(&[1u8; 32], &[2u8; 32], &[3u8; 32], Some(&[4u8; 32])).unwrap();
    assert_eq!(
        four,
        [
            78, 207, 60, 174, 46, 179, 64, 42, 64, 57, 196, 39, 154, 81, 183, 109, 35, 158, 202,
            52, 42, 176, 74, 52, 11, 62, 248, 241, 18, 184, 197, 194
        ]
    );
}

#[test]
fn pickle_key_of_known_secret() {
    assert_eq!(
        derive_pickle_key(b"user_password", b"random_salt_123"),
        [
            244, 139, 4, 93, 79, 53, 50, 77, 109, 231, 81, 239, 6, 113, 9, 170, 150, 233, 172,
            106, 4, 97, 61, 39, 171, 110, 180, 56, 211, 138, 173, 134
        ]
    );
}

#[test]
fn curve_secret_of_known_seed_is_hashed_and_clamped() {
    let pair = convert_ed25519_to_curve25519_secret(&[7u8; 32]).unwrap();
    let secret = pair.secret_key_bytes();
    assert_eq!(
        secret,
        vec![
            40, 173, 57, 254, 253, 127, 163, 226, 0, 169, 198, 38, 238, 245, 153, 230, 26, 45, 5,
            92, 72, 168, 40, 138, 78, 126, 76, 75, 202, 57, 40, 120
        ]
    );
    assert_eq!(secret[0] & 7, 0);
    assert_eq!(secret[31] & 128, 0);
    assert_eq!(secret[31] & 64, 64);
    assert_eq!(pair.public, Curve25519KeyPair::from_secret(pair.secret_key_bytes().try_into().unwrap()).public);
}

#[test]
fn curve_secret_uses_the_first_32_bytes_and_refuses_fewer() {
    let mut long = vec![7u8; 32];
    long.extend_from_slice(&[9u8; 32]);
    let from_long = convert_ed25519_to_curve25519_secret(&long).unwrap();
    let from_seed = convert_ed25519_to_curve25519_secret(&[7u8; 32]).unwrap();
    assert_eq!(from_long.secret_key_bytes(), from_seed.secret_key_bytes());
    assert!(matches!(
        convert_ed25519_to_curve25519_secret(&[7u8; 31]),
        Err(CryptoError::InvalidKey(_))
    ));
}

#[test]
fn both_views_of_an_identity_are_one_key() {
    let seed = bytes32("9d61b19deffd5a60ba844af492ec2cc44449c5697b326919703bac031cae7f60");
    let public = bytes32("d75a980182b10ab7d54bfed3c964073a0ee172f3daa62325af021a68f707511a");
    let from_secret = convert_ed25519_to_curve25519_secret(&seed).unwrap();
    assert_eq!(
        from_secret.secret_key_bytes(),
        hex::decode("307c83864f2833cb427a2ef1c00a013cfdff2768d980c0a3a520f006904de94f").unwrap()
    );
    let from_public = convert_ed25519_to_curve25519_public(&public).unwrap();
    assert_eq!(from_secret.public, from_public);
    assert_ne!(from_public, public);
}

#[test]
fn bytes_that_are_no_point_do_not_convert() {
    let mut off_curve = [0u8; 32];
    off_curve[0] = 2;
    assert!(matches!(
        convert_ed25519_to_curve25519_public(&off_curve),
        Err(CryptoError::InvalidKey(_))
    ));
}

#[test]
fn signed_prekey_expires_after_its_age() {
    let identity = IdentityKeyPair::generate();
    let pair = Curve25519KeyPair::generate();
    let record = SignedPreKey::new_at(3, &pair, &identity, 1_000);
    assert_eq!(record.created_at, 1_000);
    assert_eq!(record.public_key, pair.public.to_vec());
    assert!(!record.is_expired_at(1_000 + 7 * 86_400, 7));
    assert!(record.is_expired_at(1_000 + 7 * 86_400 + 1, 7));
    assert!(!record.is_expired_at(0, 7));
    assert!(!record.is_expired_at(i64::MAX, i64::MAX));
    assert!(record.is_expired_at(i64::MAX, 0));
}

#[test]
fn signed_prekey_verify_tells_key_from_signature() {
    let identity = IdentityKeyPair::generate();
    let other = IdentityKeyPair::generate();
    let pair = Curve25519KeyPair::generate();
    let mut record = SignedPreKey::new(1, &pair, &identity);
    assert!(record.verify(&identity.public).is_ok());
    assert!(matches!(record.verify(&other.public), Err(CryptoError::SignatureError(_))));
    let mut off_curve = [0u8; 32];
    off_curve[0] = 2;
    assert!(matches!(record.verify(&off_curve), Err(CryptoError::InvalidKey(_))));
    record.signature.pop();
    assert!(matches!(record.verify(&identity.public), Err(CryptoError::SignatureError(_))));
}

#[test]
fn error_text_is_heading_and_detail() {
    assert_eq!(
        CryptoError::InvalidKey("too short".to_string()).message(),
        "Invalid key format: too short"
    );
    assert_eq!(
        CryptoError::DecryptionError("bad tag".to_string()).message(),
        "Decryption failed: bad tag"
    );
    assert_eq!(
        CryptoError::SessionNotFound("abc".to_string()).message(),
        "No session found for peer: abc"
    );
    assert_eq!(CryptoError::VaultError("x".to_string()).message(), "Vault error: x");
    assert_eq!(
        CryptoError::SignatureError(String::new()).message(),
        "Signature verification failed: "
    );
}

#[test]
fn every_error_has_its_heading() {
    let d = || "d".to_string();
    let cases = vec![
        (CryptoError::KeyGenerationFailed(d()), "Key generation failed: d"),
        (CryptoError::InvalidKey(d()), "Invalid key format: d"),
        (CryptoError::KeyExchangeFailed(d()), "Key exchange failed: d"),
        (CryptoError::X3dhError(d()), "X3DH error: d"),
        (CryptoError::RatchetError(d()), "Ratchet error: d"),
        (CryptoError::SignatureError(d()), "Signature verification failed: d"),
        (CryptoError::EncryptionError(d()), "Encryption failed: d"),
        (CryptoError::DecryptionError(d()), "Decryption failed: d"),
        (CryptoError::SessionNotFound(d()), "No session found for peer: d"),
        (CryptoError::SessionCorrupted(d()), "Session corrupted: d"),
        (CryptoError::NoPrekeysAvailable(d()), "No prekeys available for peer: d"),
        (CryptoError::DatabaseError(d()), "Database error: d"),
        (CryptoError::VaultError(d()), "Vault error: d"),
        (CryptoError::SerializationError(d()), "Serialization error: d"),
        (CryptoError::VodozemacError(d()), "vodozemac error: d"),
        (CryptoError::InternalError(d()), "Internal crypto error: d"),
    ];
    for (error, text) in cases {
        assert_eq!(error.message(), text);
    }
}
