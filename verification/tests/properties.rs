use nochat_crypto::errors::CryptoError;
use nochat_crypto::keys::{Curve25519KeyPair, IdentityKeyPair, OneTimePreKey, SignedPreKey};
use nochat_crypto::prekeys::{PreKeyConfig, PreKeyManager};
use nochat_crypto::ratchet::{EncryptedMessage, OlmAccount, RatchetSession};
use nochat_crypto::x3dh::{x3dh_initiate, x3dh_initiate_with, x3dh_respond, PreKeyBundle};

fn pair_of_sessions() -> (OlmAccount, OlmAccount, RatchetSession, RatchetSession) {
    let mut alice = OlmAccount::new();
    let mut bob = OlmAccount::new();
    bob.generate_one_time_keys(1);
    let bob_otk = bob.one_time_keys().into_iter().next().unwrap().1;
    let mut alice_session = alice.create_outbound_session(bob.identity_key(), bob_otk).unwrap();
    let first = alice_session.encrypt(b"first");
    let (bob_session, plaintext) = bob.create_inbound_session(alice.identity_key(), &first).unwrap();
    assert_eq!(plaintext, b"first");
    (alice, bob, alice_session, bob_session)
}

#[test]
fn handshake_agrees_through_the_prekey_manager() {
    let alice = IdentityKeyPair::generate();
    let mut bob = PreKeyManager::new(IdentityKeyPair::generate());
    let bundle = bob.get_bundle();
    let result = x3dh_initiate(&alice, &bundle).unwrap();
    let used = result.used_one_time_prekey.unwrap();
    assert_eq!(used, 0);
    let one_time = bob.consume_prekey(used).unwrap();
    let ephemeral: [u8; 32] = result.ephemeral_public.as_slice().try_into().unwrap();
    let secret = x3dh_respond(
        bob.identity(),
        bob.get_signed_prekey_pair(),
        Some(&one_time),
        &alice.public,
        &ephemeral,
    )
    .unwrap();
    assert_eq!(secret, result.shared_secret);
    assert!(bob.consume_prekey(used).is_none());
}

#[test]
fn handshake_with_a_given_ephemeral_is_repeatable() {
    let alice = IdentityKeyPair::generate();
    let bob = PreKeyManager::new(IdentityKeyPair::generate());
    let bundle = bob.get_bundle();
    let ephemeral = Curve25519KeyPair::generate();
    let first = x3dh_initiate_with(&alice, &bundle, &ephemeral).unwrap();
    let second = x3dh_initiate_with(&alice, &bundle, &ephemeral).unwrap();
    assert_eq!(first.shared_secret, second.shared_secret);
    assert_eq!(first.ephemeral_public, ephemeral.public.to_vec());
    let other = x3dh_initiate(&alice, &bundle).unwrap();
    assert_ne!(other.shared_secret, first.shared_secret);
    assert_ne!(other.ephemeral_public, first.ephemeral_public);
}

#[test]
fn handshake_depends_on_the_one_time_prekey() {
    let alice = IdentityKeyPair::generate();
    let bob_identity = IdentityKeyPair::generate();
    let bob_signed = Curve25519KeyPair::generate();
    let bob_otk = Curve25519KeyPair::generate();
    let with = PreKeyBundle {
        identity_key: bob_identity.public_key_bytes(),
        signed_prekey: SignedPreKey::new(1, &bob_signed, &bob_identity),
        one_time_prekey: Some(OneTimePreKey::new(9, &bob_otk)),
    };
    let mut without = with.clone();
    without.one_time_prekey = None;
    let ephemeral = Curve25519KeyPair::generate();
    let a = x3dh_initiate_with(&alice, &with, &ephemeral).unwrap();
    let b = x3dh_initiate_with(&alice, &without, &ephemeral).unwrap();
    assert_eq!(a.used_one_time_prekey, Some(9));
    assert_eq!(b.used_one_time_prekey, None);
    assert_ne!(a.shared_secret, b.shared_secret);
}

#[test]
fn any_flipped_bit_breaks_the_bundle() {
    let identity = IdentityKeyPair::generate();
    let prekey = Curve25519KeyPair::generate();
    let bundle = PreKeyBundle {
        identity_key: identity.public_key_bytes(),
        signed_prekey: SignedPreKey::new(1, &prekey, &identity),
        one_time_prekey: None,
    };
    assert!(bundle.verify().is_ok());
    for byte in 0..64 {
        for bit in 0..8 {
            let mut bad = bundle.clone();
            bad.signed_prekey.signature[byte] ^= 1 << bit;
            assert!(matches!(bad.verify(), Err(CryptoError::SignatureError(_))));
        }
    }
    for byte in 0..32 {
        for bit in 0..8 {
            let mut bad = bundle.clone();
            bad.signed_prekey.public_key[byte] ^= 1 << bit;
            assert!(matches!(bad.verify(), Err(CryptoError::SignatureError(_))));
        }
    }
}

#[test]
fn unusable_bundles_fail_with_the_error_of_their_defect() {
    let alice = IdentityKeyPair::generate();
    let identity = IdentityKeyPair::generate();
    let prekey = Curve25519KeyPair::generate();
    let good = PreKeyBundle {
        identity_key: identity.public_key_bytes(),
        signed_prekey: SignedPreKey::new(1, &prekey, &identity),
        one_time_prekey: Some(OneTimePreKey::new(1, &prekey)),
    };
    assert!(x3dh_initiate(&alice, &good).is_ok());

    let mut short_identity = good.clone();
    short_identity.identity_key.pop();
    assert!(matches!(short_identity.get_identity_key(), Err(CryptoError::InvalidKey(_))));
    assert!(matches!(short_identity.verify(), Err(CryptoError::InvalidKey(_))));
    assert!(matches!(x3dh_initiate(&alice, &short_identity), Err(CryptoError::InvalidKey(_))));

    let mut foreign = good.clone();
    foreign.identity_key = IdentityKeyPair::generate().public_key_bytes();
    assert!(matches!(x3dh_initiate(&alice, &foreign), Err(CryptoError::SignatureError(_))));

    let mut short_otk = good.clone();
    short_otk.one_time_prekey = Some(OneTimePreKey { key_id: 1, public_key: vec![1, 2, 3] });
    assert!(matches!(x3dh_initiate(&alice, &short_otk), Err(CryptoError::InvalidKey(_))));

    let mut bad_signature = good.clone();
    bad_signature.signed_prekey.signature.truncate(10);
    assert!(matches!(x3dh_initiate(&alice, &bad_signature), Err(CryptoError::SignatureError(_))));
}

#[test]
fn rotation_keeps_the_previous_generation_resolvable() {
    let alice = IdentityKeyPair::generate();
    let mut bob = PreKeyManager::new(IdentityKeyPair::generate());
    let bundle = bob.get_bundle();
    let old_id = bundle.signed_prekey.key_id;

    let rotated = bob.rotate_signed_prekey_at(5_000);
    assert_eq!(rotated.key_id, old_id + 1);
    assert_eq!(rotated.created_at, 5_000);
    assert_eq!(bob.signed_prekey_created(), 5_000);
    assert!(rotated.verify(&bob.identity().public).is_ok());
    assert_eq!(bob.get_bundle().signed_prekey.key_id, old_id + 1);

    let result = x3dh_initiate(&alice, &bundle).unwrap();
    let one_time = bob.consume_prekey(result.used_one_time_prekey.unwrap()).unwrap();
    let ephemeral: [u8; 32] = result.ephemeral_public.as_slice().try_into().unwrap();
    let used_pair = bob.signed_prekey_pair_for(old_id).unwrap();
    assert_eq!(used_pair.public.to_vec(), bundle.signed_prekey.public_key);
    let secret =
        x3dh_respond(bob.identity(), &used_pair, Some(&one_time), &alice.public, &ephemeral).unwrap();
    assert_eq!(secret, result.shared_secret);

    let current = bob.signed_prekey_pair_for(old_id + 1).unwrap();
    assert_eq!(current.public, bob.get_signed_prekey_pair().public);
    assert!(bob.signed_prekey_pair_for(old_id + 2).is_none());
    bob.rotate_signed_prekey();
    assert!(bob.signed_prekey_pair_for(old_id).is_none());
    assert!(bob.signed_prekey_pair_for(old_id + 1).is_some());
}

#[test]
fn manager_starts_with_ids_from_zero() {
    let manager = PreKeyManager::new(IdentityKeyPair::generate());
    let ids: Vec<u32> = manager.get_one_time_prekeys().iter().map(|k| k.key_id).collect();
    assert_eq!(ids, (0..100).collect::<Vec<u32>>());
    assert_eq!(manager.next_prekey_id(), 100);
    assert_eq!(manager.get_signed_prekey().key_id, 0);
    assert_eq!(manager.get_signed_prekey().created_at, manager.signed_prekey_created());
    assert_eq!(manager.get_bundle().one_time_prekey.unwrap().key_id, 0);
    assert_eq!(manager.fingerprint(), manager.identity().fingerprint());
}

#[test]
fn replenishment_continues_the_ids() {
    let config = PreKeyConfig {
        initial_batch_size: 3,
        replenishment_batch_size: 4,
        min_prekey_count: 2,
        signed_prekey_max_age_days: 7,
    };
    let mut manager = PreKeyManager::with_config(IdentityKeyPair::generate(), config);
    assert!(!manager.needs_replenishment());
    assert!(manager.consume_prekey(1).is_some());
    assert!(!manager.needs_replenishment());
    assert!(manager.consume_prekey(0).is_some());
    assert!(manager.needs_replenishment());
    let fresh = manager.replenish();
    assert_eq!(fresh.iter().map(|k| k.key_id).collect::<Vec<u32>>(), vec![3, 4, 5, 6]);
    assert_eq!(manager.next_prekey_id(), 7);
    let ids: Vec<u32> = manager.get_one_time_prekeys().iter().map(|k| k.key_id).collect();
    assert_eq!(ids, vec![2, 3, 4, 5, 6]);
    assert_eq!(manager.get_one_time_prekeys()[1].public_key, fresh[0].public_key);
    assert!(manager.consume_prekey(1).is_none());
    assert!(manager.consume_prekey(7).is_none());
}

#[test]
fn empty_pool_gives_a_bundle_without_one_time_prekey() {
    let config = PreKeyConfig {
        initial_batch_size: 0,
        replenishment_batch_size: 1,
        min_prekey_count: 1,
        signed_prekey_max_age_days: 7,
    };
    let manager = PreKeyManager::with_config(IdentityKeyPair::generate(), config);
    assert_eq!(manager.prekey_count(), 0);
    assert!(manager.needs_replenishment());
    let bundle = manager.get_bundle();
    assert!(bundle.one_time_prekey.is_none());
    assert!(bundle.verify().is_ok());
    let result = x3dh_initiate(&IdentityKeyPair::generate(), &bundle).unwrap();
    assert_eq!(result.used_one_time_prekey, None);
}

#[test]
fn rotation_is_due_after_the_configured_age() {
    let manager = PreKeyManager::new(IdentityKeyPair::generate());
    let created = manager.signed_prekey_created();
    assert!(!manager.needs_signed_prekey_rotation());
    assert!(!manager.needs_signed_prekey_rotation_at(created + 7 * 86_400));
    assert!(manager.needs_signed_prekey_rotation_at(created + 7 * 86_400 + 1));
    let status = manager.status_at(created + 90);
    assert_eq!(status.signed_prekey_age_seconds, 90);
    assert_eq!(status.one_time_prekey_count, 100);
    assert!(!status.needs_rotation);
    assert_eq!(status.fingerprint, manager.fingerprint());
    let late = manager.status_at(created + 8 * 86_400);
    assert!(late.needs_rotation);
    assert_eq!(late.signed_prekey_age_seconds, 8 * 86_400);
}

#[test]
fn manager_restores_from_its_stored_form() {
    let manager = PreKeyManager::new(IdentityKeyPair::generate());
    let (signed, one_time) = manager.get_stored_prekeys();
    assert!(signed.is_signed);
    assert_eq!(one_time.len(), 100);
    assert!(!one_time[0].is_signed);
    let identity = IdentityKeyPair::from_bytes(
        &manager.identity().public_key_bytes(),
        &manager.identity().secret_key_bytes(),
    )
    .unwrap();
    let mut restored = PreKeyManager::restore(
        identity,
        signed,
        manager.signed_prekey_created(),
        one_time,
        manager.next_prekey_id(),
        PreKeyConfig::default(),
    )
    .unwrap();
    assert_eq!(restored.prekey_count(), 100);
    assert_eq!(restored.next_prekey_id(), 100);
    assert_eq!(restored.get_signed_prekey().public_key, manager.get_signed_prekey().public_key);
    assert_eq!(restored.get_signed_prekey().signature, manager.get_signed_prekey().signature);
    assert_eq!(
        restored.get_one_time_prekeys()[99].public_key,
        manager.get_one_time_prekeys()[99].public_key
    );
    assert!(restored.consume_prekey(99).is_some());
    assert!(restored.get_bundle().verify().is_ok());
}

#[test]
fn manager_does_not_restore_from_broken_keys() {
    let manager = PreKeyManager::new(IdentityKeyPair::generate());
    let (signed, mut one_time) = manager.get_stored_prekeys();
    one_time[50].secret_key.pop();
    let identity = IdentityKeyPair::generate();
    let r = PreKeyManager::restore(identity, signed, 0, one_time, 100, PreKeyConfig::default());
    assert!(matches!(r, Err(CryptoError::InvalidKey(_))));
}

#[test]
fn plaintexts_of_all_sizes_come_back() {
    let (_alice, _bob, mut alice_session, mut bob_session) = pair_of_sessions();
    for size in [0usize, 1, 15, 16, 17, 1000, 1 << 20] {
        let plaintext: Vec<u8> = (0..size).map(|i| (i % 251) as u8).collect();
        let message = alice_session.encrypt(&plaintext);
        assert_eq!(bob_session.decrypt(&message).unwrap(), plaintext);
        let reply = bob_session.encrypt(&plaintext);
        assert_eq!(alice_session.decrypt(&reply).unwrap(), plaintext);
    }
}

#[test]
fn counters_follow_the_traffic() {
    let (_alice, _bob, mut alice_session, mut bob_session) = pair_of_sessions();
    assert_eq!(alice_session.messages_sent(), 1);
    assert_eq!(alice_session.messages_received(), 0);
    assert!(!alice_session.has_received_message());
    assert_eq!(bob_session.messages_sent(), 0);
    assert_eq!(bob_session.messages_received(), 0);
    let m = alice_session.encrypt(b"two");
    bob_session.decrypt(&m).unwrap();
    assert_eq!(bob_session.messages_received(), 1);
    assert!(bob_session.has_received_message());
    let r = bob_session.encrypt(b"reply");
    alice_session.decrypt(&r).unwrap();
    assert!(alice_session.has_received_message());
    let stats = alice_session.stats();
    assert_eq!(stats.messages_sent, 2);
    assert_eq!(stats.messages_received, 1);
    assert_eq!(stats.peer_id, alice_session.peer_id());
    assert_eq!(stats.session_id, alice_session.session_id());
    assert_eq!(alice_session.session_id(), bob_session.session_id());
}

#[test]
fn peer_id_is_lowercase_hex_of_the_identity_key() {
    let (alice, bob, alice_session, bob_session) = pair_of_sessions();
    assert_eq!(alice_session.peer_id(), hex::encode(bob.identity_key()));
    assert_eq!(bob_session.peer_id(), hex::encode(alice.identity_key()));
    assert_eq!(alice_session.peer_key(), bob.identity_key());
    assert_eq!(alice_session.peer_id().len(), 64);
    assert_eq!(alice_session.peer_id(), alice_session.peer_id().to_lowercase());
}

#[test]
fn message_type_latches_after_the_first_reply() {
    let (_alice, _bob, mut alice_session, mut bob_session) = pair_of_sessions();
    assert_eq!(alice_session.encrypt(b"still waiting").message_type, 0);
    let reply = bob_session.encrypt(b"reply");
    assert_eq!(reply.message_type, 1);
    alice_session.decrypt(&reply).unwrap();
    assert_eq!(alice_session.encrypt(b"after").message_type, 1);
    assert_eq!(alice_session.encrypt(b"after").message_type, 1);
}

#[test]
fn each_encryption_uses_a_new_key() {
    let (_alice, _bob, mut alice_session, mut bob_session) = pair_of_sessions();
    let one = alice_session.encrypt(b"same text");
    let two = alice_session.encrypt(b"same text");
    assert_ne!(one.ciphertext, two.ciphertext);
    assert_eq!(bob_session.decrypt(&two).unwrap(), b"same text");
    assert_eq!(bob_session.decrypt(&one).unwrap(), b"same text");
    assert!(matches!(bob_session.decrypt(&one), Err(CryptoError::DecryptionError(_))));
}

#[test]
fn messages_out_of_order_decrypt() {
    for order in [[0usize, 2, 1, 3], [3, 2, 1, 0]] {
        let (_alice, _bob, mut alice_session, mut bob_session) = pair_of_sessions();
        let texts = [b"m1".to_vec(), b"m2".to_vec(), b"m3".to_vec(), b"m4".to_vec()];
        let messages: Vec<EncryptedMessage> =
            texts.iter().map(|t| alice_session.encrypt(t)).collect();
        for i in order {
            assert_eq!(bob_session.decrypt(&messages[i]).unwrap(), texts[i]);
        }
        for message in &messages {
            assert!(matches!(bob_session.decrypt(message), Err(CryptoError::DecryptionError(_))));
        }
        assert_eq!(bob_session.messages_received(), 4);
    }
}

#[test]
fn tampered_message_leaves_the_session_usable() {
    let (_alice, _bob, mut alice_session, mut bob_session) = pair_of_sessions();
    let message = alice_session.encrypt(b"intact");
    let mut bad = message.clone();
    let last = bad.ciphertext.len() - 1;
    bad.ciphertext[last] ^= 1;
    let before = bob_session.pickle(&[0u8; 32]).map(|_| bob_session.messages_received()).unwrap();
    assert!(matches!(bob_session.decrypt(&bad), Err(CryptoError::DecryptionError(_))));
    assert_eq!(bob_session.messages_received(), before);
    assert_eq!(bob_session.decrypt(&message).unwrap(), b"intact");
    let empty = EncryptedMessage { message_type: 1, ciphertext: vec![] };
    assert!(matches!(bob_session.decrypt(&empty), Err(CryptoError::DecryptionError(_))));
    let next = alice_session.encrypt(b"next");
    assert_eq!(bob_session.decrypt(&next).unwrap(), b"next");
}

#[test]
fn message_beyond_the_skip_bound_is_refused_and_changes_nothing() {
    let (_alice, _bob, mut alice_session, mut bob_session) = pair_of_sessions();
    let messages: Vec<EncryptedMessage> =
        (0..1002).map(|i| alice_session.encrypt(format!("m{}", i).as_bytes())).collect();
    let received = bob_session.messages_received();
    let beyond = &messages[1001];
    assert!(matches!(bob_session.decrypt(beyond), Err(CryptoError::DecryptionError(_))));
    assert!(matches!(bob_session.decrypt(beyond), Err(CryptoError::DecryptionError(_))));
    assert_eq!(bob_session.messages_received(), received);
    assert_eq!(bob_session.decrypt(&messages[0]).unwrap(), b"m0");
    assert_eq!(bob_session.messages_received(), received + 1);
    assert_eq!(bob_session.decrypt(&messages[1001]).unwrap(), b"m1001");
    assert_eq!(bob_session.decrypt(&messages[1000]).unwrap(), b"m1000");
}

#[test]
fn first_message_beyond_the_skip_bound_creates_nothing() {
    let mut alice = OlmAccount::new();
    let mut bob = OlmAccount::new();
    bob.generate_one_time_keys(1);
    let bob_otk = bob.one_time_keys().into_iter().next().unwrap().1;
    let mut alice_session = alice.create_outbound_session(bob.identity_key(), bob_otk).unwrap();
    let messages: Vec<EncryptedMessage> =
        (0..1002).map(|_| alice_session.encrypt(b"x")).collect();
    assert!(matches!(
        bob.create_inbound_session(alice.identity_key(), &messages[1001]),
        Err(CryptoError::DecryptionError(_))
    ));
    let (bob_session, plaintext) =
        bob.create_inbound_session(alice.identity_key(), &messages[1000]).unwrap();
    assert_eq!(plaintext, b"x");
    assert_eq!(bob_session.messages_received(), 0);
}

#[test]
fn replayed_first_message_creates_no_second_session() {
    let mut alice = OlmAccount::new();
    let mut bob = OlmAccount::new();
    bob.generate_one_time_keys(1);
    let bob_otk = bob.one_time_keys().into_iter().next().unwrap().1;
    let mut alice_session = alice.create_outbound_session(bob.identity_key(), bob_otk).unwrap();
    let first = alice_session.encrypt(b"hello");
    assert!(bob.create_inbound_session(alice.identity_key(), &first).is_ok());
    assert!(matches!(
        bob.create_inbound_session(alice.identity_key(), &first),
        Err(CryptoError::DecryptionError(_))
    ));
}

#[test]
fn inbound_session_needs_a_pre_key_message_of_the_named_sender() {
    let (alice, mut bob, mut alice_session, mut bob_session) = pair_of_sessions();
    let reply = bob_session.encrypt(b"reply");
    alice_session.decrypt(&reply).unwrap();
    let normal = alice_session.encrypt(b"normal");
    assert_eq!(normal.message_type, 1);
    assert!(matches!(
        bob.create_inbound_session(alice.identity_key(), &normal),
        Err(CryptoError::X3dhError(_))
    ));
    let garbage = EncryptedMessage { message_type: 0, ciphertext: vec![1, 2, 3] };
    assert!(matches!(
        bob.create_inbound_session(alice.identity_key(), &garbage),
        Err(CryptoError::DecryptionError(_))
    ));

    let mut carol = OlmAccount::new();
    bob.generate_one_time_keys(1);
    let otk = bob.one_time_keys().into_iter().next().unwrap().1;
    let mut carol_session = carol.create_outbound_session(bob.identity_key(), otk).unwrap();
    let from_carol = carol_session.encrypt(b"hi");
    assert!(matches!(
        bob.create_inbound_session(alice.identity_key(), &from_carol),
        Err(CryptoError::DecryptionError(_))
    ));
    assert!(bob.create_inbound_session(carol.identity_key(), &from_carol).is_ok());
}

#[test]
fn pickled_session_reads_back_and_goes_on() {
    let (_alice, _bob, mut alice_session, mut bob_session) = pair_of_sessions();
    let key = [5u8; 32];
    let pickled = alice_session.pickle(&key).unwrap();
    let mut restored = RatchetSession::unpickle(&pickled, &key).unwrap();
    assert_eq!(restored.peer_id(), alice_session.peer_id());
    assert_eq!(restored.session_id(), alice_session.session_id());
    assert_eq!(restored.messages_sent(), alice_session.messages_sent());
    assert_eq!(restored.messages_received(), alice_session.messages_received());
    let from_restored = restored.encrypt(b"after restore");
    let from_original = alice_session.encrypt(b"after restore");
    assert_eq!(from_restored.ciphertext, from_original.ciphertext);
    assert_eq!(bob_session.decrypt(&from_restored).unwrap(), b"after restore");
    let again = restored.pickle(&key).unwrap();
    assert_ne!(again, pickled);
}

#[test]
fn pickled_session_remembers_the_skip_bound() {
    let (_alice, _bob, mut alice_session, bob_session) = pair_of_sessions();
    let key = [5u8; 32];
    let mut restored = RatchetSession::unpickle(&bob_session.pickle(&key).unwrap(), &key).unwrap();
    let messages: Vec<EncryptedMessage> =
        (0..1002).map(|_| alice_session.encrypt(b"x")).collect();
    assert!(matches!(restored.decrypt(&messages[1001]), Err(CryptoError::DecryptionError(_))));
    assert!(restored.decrypt(&messages[1000]).is_ok());
}

#[test]
fn pickle_errors_name_the_stage() {
    let (_alice, _bob, alice_session, _bob_session) = pair_of_sessions();
    let key = [5u8; 32];
    let pickled = alice_session.pickle(&key).unwrap();
    assert!(!pickled.contains("ratchet"));
    assert!(matches!(
        RatchetSession::unpickle("not base64!", &key),
        Err(CryptoError::SerializationError(_))
    ));
    assert!(matches!(
        RatchetSession::unpickle(&pickled, &[6u8; 32]),
        Err(CryptoError::VaultError(_))
    ));
    let mut tampered = pickled.clone().into_bytes();
    tampered[20] = if tampered[20] == b'A' { b'B' } else { b'A' };
    assert!(matches!(
        RatchetSession::unpickle(&String::from_utf8(tampered).unwrap(), &key),
        Err(CryptoError::VaultError(_))
    ));
    let not_a_session = nochat_crypto::sessions::seal_to_text(&key, b"something else").unwrap();
    assert!(matches!(
        RatchetSession::unpickle(&not_a_session, &key),
        Err(CryptoError::SessionCorrupted(_))
    ));
}

#[test]
fn pickled_account_reads_back() {
    let mut account = OlmAccount::new();
    account.generate_one_time_keys(3);
    let key = [9u8; 32];
    let pickled = account.pickle(&key).unwrap();
    let restored = OlmAccount::from_pickle(&pickled, &key).unwrap();
    assert_eq!(restored.identity_key(), account.identity_key());
    assert_eq!(restored.signing_key(), account.signing_key());
    assert_eq!(restored.one_time_keys().len(), 3);
    assert_eq!(restored.max_one_time_keys(), account.max_one_time_keys());
    assert!(matches!(
        OlmAccount::from_pickle(&pickled, &[8u8; 32]),
        Err(CryptoError::VaultError(_))
    ));
    assert!(matches!(
        OlmAccount::from_pickle("***", &key),
        Err(CryptoError::SerializationError(_))
    ));
    let not_an_account = nochat_crypto::sessions::seal_to_text(&key, b"{}").unwrap();
    assert!(matches!(
        OlmAccount::from_pickle(&not_an_account, &key),
        Err(CryptoError::SessionCorrupted(_))
    ));
    let other = OlmAccount::default();
    assert_ne!(other.identity_key(), account.identity_key());
}

#[test]
fn new_account_holds_no_one_time_keys() {
    let account = OlmAccount::new();
    assert!(account.one_time_keys().is_empty());
    assert_eq!(account.max_one_time_keys(), 50);
}

#[test]
fn generated_one_time_keys_are_listed_once_until_published() {
    let mut account = OlmAccount::new();
    account.generate_one_time_keys(4);
    let first = account.one_time_keys();
    assert_eq!(first.len(), 4);
    account.generate_one_time_keys(3);
    let both = account.one_time_keys();
    assert_eq!(both.len(), 7);
    for (id, key) in &first {
        assert!(both.iter().any(|(i, k)| i == id && k == key));
    }
    for (at, (id, key)) in both.iter().enumerate() {
        for (other_id, other_key) in &both[at + 1..] {
            assert_ne!(id, other_id);
            assert_ne!(key, other_key);
        }
    }
    account.generate_one_time_keys(0);
    assert_eq!(account.one_time_keys().len(), 7);
    account.mark_keys_as_published();
    assert!(account.one_time_keys().is_empty());
    account.generate_one_time_keys(2);
    let later = account.one_time_keys();
    assert_eq!(later.len(), 2);
    assert!(later.iter().all(|(id, _)| !both.iter().any(|(i, _)| i == id)));
}

#[test]
fn used_one_time_key_is_no_longer_listed() {
    let mut alice = OlmAccount::new();
    let mut bob = OlmAccount::new();
    bob.generate_one_time_keys(2);
    let keys = bob.one_time_keys();
    let used = keys[0].1;
    let mut alice_session = alice.create_outbound_session(bob.identity_key(), used).unwrap();
    let first = alice_session.encrypt(b"hi");
    bob.create_inbound_session(alice.identity_key(), &first).unwrap();
    let left = bob.one_time_keys();
    assert_eq!(left.len(), 1);
    assert_eq!(left[0], keys[1]);
}

#[test]
fn encoding_of_a_decoded_message_decodes_again() {
    let (_alice, _bob, mut alice_session, mut bob_session) = pair_of_sessions();
    let pre_key = alice_session.encrypt(b"one");
    let reply = bob_session.encrypt(b"two");
    for message in [pre_key, reply] {
        let decoded = message.to_olm().unwrap();
        let again = EncryptedMessage::from_olm(&decoded);
        assert_eq!(again.message_type, message.message_type);
        assert_eq!(again.ciphertext, message.ciphertext);
        assert!(again.to_olm().is_ok());
    }
}

#[test]
fn manager_restores_to_the_same_prekeys() {
    let mut manager = PreKeyManager::new(IdentityKeyPair::generate());
    manager.consume_prekey(3);
    manager.rotate_signed_prekey_at(77);
    let (signed, one_time) = manager.get_stored_prekeys();
    assert_eq!(signed.public_key.len(), 32);
    assert_eq!(signed.secret_key.len(), 32);
    assert!(one_time.iter().all(|k| k.public_key.len() == 32 && k.secret_key.len() == 32));
    let identity = IdentityKeyPair::from_bytes(
        &manager.identity().public_key_bytes(),
        &manager.identity().secret_key_bytes(),
    )
    .unwrap();
    let restored = PreKeyManager::restore(
        identity,
        signed,
        manager.signed_prekey_created(),
        one_time,
        manager.next_prekey_id(),
        PreKeyConfig::default(),
    )
    .unwrap();
    let before = manager.get_one_time_prekeys();
    let after = restored.get_one_time_prekeys();
    assert_eq!(before.len(), after.len());
    for (x, y) in before.iter().zip(after.iter()) {
        assert_eq!(x.key_id, y.key_id);
        assert_eq!(x.public_key, y.public_key);
    }
    assert_eq!(restored.get_signed_prekey().key_id, 1);
    assert_eq!(restored.get_signed_prekey().public_key, manager.get_signed_prekey().public_key);
    assert_eq!(restored.signed_prekey_created(), 77);
    assert_eq!(restored.next_prekey_id(), manager.next_prekey_id());
}

#[test]
fn generated_one_time_keys_are_stored_under_ids_of_their_own() {
    let mut account = OlmAccount::new();
    assert_eq!(account.stored_one_time_key_count(), 0);
    account.generate_one_time_keys(3);
    assert_eq!(account.stored_one_time_key_count(), 3);
    account.mark_keys_as_published();
    assert_eq!(account.stored_one_time_key_count(), 3);
    account.generate_one_time_keys(4);
    assert_eq!(account.stored_one_time_key_count(), 7);
    let listed = account.one_time_keys();
    assert_eq!(listed.len(), 4);
    let mut ids: Vec<&String> = listed.iter().map(|(id, _)| id).collect();
    ids.sort();
    ids.dedup();
    assert_eq!(ids.len(), 4);
}

#[test]
fn handshake_hands_out_a_whole_ephemeral_key() {
    let alice = IdentityKeyPair::generate();
    let bob = PreKeyManager::new(IdentityKeyPair::generate());
    let result = x3dh_initiate(&alice, &bob.get_bundle()).unwrap();
    assert_eq!(result.ephemeral_public.len(), 32);
}
