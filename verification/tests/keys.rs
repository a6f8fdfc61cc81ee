use nochat_crypto::keys::{Curve25519KeyPair, IdentityKeyPair, SignedPreKey};

#[test]
fn test_identity_key_generation() {
    let key = IdentityKeyPair::generate();
    assert_eq!(key.public_key_bytes().len(), 32);
    assert_eq!(key.secret_key_bytes().len(), 32);
}

#[test]
fn test_identity_key_signing() {
    let key = IdentityKeyPair::generate();
    let message = b"test message";
    let signature = key.sign(message);
    assert_eq!(signature.len(), 64);

    let sig = vodozemac::Ed25519Signature::from_slice(&signature).unwrap();
    let public = vodozemac::Ed25519PublicKey::from_slice(&key.public).unwrap();
    assert!(public.verify(message, &sig).is_ok());
}

#[test]
fn test_curve25519_key_generation() {
    let key = Curve25519KeyPair::generate();
    assert_eq!(key.public_key_bytes().len(), 32);
    assert_eq!(key.secret_key_bytes().len(), 32);
}

#[test]
fn test_diffie_hellman() {
    let alice = Curve25519KeyPair::generate();
    let bob = Curve25519KeyPair::generate();

    let shared_alice = alice.diffie_hellman(&bob.public);
    let shared_bob = bob.diffie_hellman(&alice.public);

    assert_eq!(shared_alice, shared_bob);
}

#[test]
fn test_signed_prekey() {
    let identity = IdentityKeyPair::generate();
    let prekey_pair = Curve25519KeyPair::generate();
    let signed_prekey = SignedPreKey::new(1, &prekey_pair, &identity);

    assert_eq!(signed_prekey.key_id, 1);
    assert!(signed_prekey.verify(&identity.public).is_ok());
}

#[test]
fn test_signed_prekey_expiry() {
    let identity = IdentityKeyPair::generate();
    let prekey_pair = Curve25519KeyPair::generate();
    let mut signed_prekey = SignedPreKey::new(1, &prekey_pair, &identity);

    assert!(!signed_prekey.is_expired(7));

    signed_prekey.created_at = chrono::Utc::now().timestamp() - (8 * 24 * 60 * 60);
    assert!(signed_prekey.is_expired(7));
}

#[test]
fn test_fingerprint() {
    let key = IdentityKeyPair::generate();
    let fingerprint = key.fingerprint();
    assert_eq!(fingerprint.len(), 16);
}
