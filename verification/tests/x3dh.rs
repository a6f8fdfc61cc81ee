use nochat_crypto::keys::{Curve25519KeyPair, IdentityKeyPair, OneTimePreKey, SignedPreKey};
use nochat_crypto::x3dh::{x3dh_initiate, x3dh_respond, PreKeyBundle};

#[test]
fn test_x3dh_key_agreement() {
    let alice_identity = IdentityKeyPair::generate();

    let bob_identity = IdentityKeyPair::generate();
    let bob_signed_prekey = Curve25519KeyPair::generate();
    let bob_otk = Curve25519KeyPair::generate();

    let bob_bundle = PreKeyBundle {
        identity_key: bob_identity.public_key_bytes(),
        signed_prekey: SignedPreKey::new(1, &bob_signed_prekey, &bob_identity),
        one_time_prekey: Some(OneTimePreKey::new(1, &bob_otk)),
    };

    let alice_result = x3dh_initiate(&alice_identity, &bob_bundle).unwrap();

    let alice_ephemeral: [u8; 32] = alice_result.ephemeral_public.as_slice().try_into().unwrap();

    let bob_result = x3dh_respond(
        &bob_identity,
        &bob_signed_prekey,
        Some(&bob_otk),
        &alice_identity.public,
        &alice_ephemeral,
    )
    .unwrap();

    assert_eq!(alice_result.shared_secret, bob_result);
    assert_eq!(alice_result.used_one_time_prekey, Some(1));
}

#[test]
fn test_x3dh_without_one_time_prekey() {
    let alice_identity = IdentityKeyPair::generate();
    let bob_identity = IdentityKeyPair::generate();
    let bob_signed_prekey = Curve25519KeyPair::generate();

    let bob_bundle = PreKeyBundle {
        identity_key: bob_identity.public_key_bytes(),
        signed_prekey: SignedPreKey::new(1, &bob_signed_prekey, &bob_identity),
        one_time_prekey: None,
    };

    let alice_result = x3dh_initiate(&alice_identity, &bob_bundle).unwrap();

    let alice_ephemeral: [u8; 32] = alice_result.ephemeral_public.as_slice().try_into().unwrap();

    let bob_result = x3dh_respond(
        &bob_identity,
        &bob_signed_prekey,
        None,
        &alice_identity.public,
        &alice_ephemeral,
    )
    .unwrap();

    assert_eq!(alice_result.shared_secret, bob_result);
    assert_eq!(alice_result.used_one_time_prekey, None);
}

#[test]
fn test_bundle_verification() {
    let identity = IdentityKeyPair::generate();
    let prekey = Curve25519KeyPair::generate();

    let bundle = PreKeyBundle {
        identity_key: identity.public_key_bytes(),
        signed_prekey: SignedPreKey::new(1, &prekey, &identity),
        one_time_prekey: None,
    };

    assert!(bundle.verify().is_ok());

    let mut bad_bundle = bundle.clone();
    bad_bundle.signed_prekey.signature[0] ^= 0xFF;
    assert!(bad_bundle.verify().is_err());
}
