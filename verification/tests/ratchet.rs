use nochat_crypto::ratchet::{EncryptedMessage, OlmAccount, RatchetSession};

#[test]
fn test_account_creation() {
    let account = OlmAccount::new();
    let identity = account.identity_key();
    assert_eq!(identity.len(), 32);
}

#[test]
fn test_one_time_key_generation() {
    let mut account = OlmAccount::new();
    account.generate_one_time_keys(10);

    let keys = account.one_time_keys();
    assert_eq!(keys.len(), 10);

    account.mark_keys_as_published();

    let keys = account.one_time_keys();
    assert_eq!(keys.len(), 0);
}

#[test]
fn test_session_creation_and_encryption() {
    let mut alice = OlmAccount::new();
    alice.generate_one_time_keys(5);

    let mut bob = OlmAccount::new();
    bob.generate_one_time_keys(5);

    let bob_identity = bob.identity_key();
    let bob_otk = bob.one_time_keys().into_iter().next().unwrap().1;

    let mut alice_session = alice.create_outbound_session(bob_identity, bob_otk).unwrap();

    let plaintext = b"Hello Bob!";
    let ciphertext = alice_session.encrypt(plaintext);

    let alice_identity = alice.identity_key();
    let (mut bob_session, decrypted) =
        bob.create_inbound_session(alice_identity, &ciphertext).unwrap();

    assert_eq!(decrypted, plaintext);

    let reply = b"Hello Alice!";
    let reply_ciphertext = bob_session.encrypt(reply);

    let decrypted_reply = alice_session.decrypt(&reply_ciphertext).unwrap();
    assert_eq!(decrypted_reply, reply);
}

#[test]
fn test_session_pickle_unpickle() {
    let mut alice = OlmAccount::new();
    alice.generate_one_time_keys(1);

    let mut bob = OlmAccount::new();
    bob.generate_one_time_keys(1);

    let bob_identity = bob.identity_key();
    let bob_otk = bob.one_time_keys().into_iter().next().unwrap().1;

    let mut alice_session = alice.create_outbound_session(bob_identity, bob_otk).unwrap();

    let msg = alice_session.encrypt(b"test");
    assert!(matches!(msg.to_olm().unwrap(), vodozemac::olm::OlmMessage::PreKey(_)));

    let (mut bob_session, _plaintext) =
        bob.create_inbound_session(alice.identity_key(), &msg).unwrap();

    let _bob_response = bob_session.encrypt(b"hello back");

    let pickle_key = [0u8; 32];
    let pickled = alice_session.pickle(&pickle_key).unwrap();

    let mut restored = RatchetSession::unpickle(&pickled, &pickle_key).unwrap();

    let msg2 = restored.encrypt(b"test2");
    assert!(matches!(
        msg2.to_olm().unwrap(),
        vodozemac::olm::OlmMessage::PreKey(_) | vodozemac::olm::OlmMessage::Normal(_)
    ));
}

#[test]
fn test_encrypted_message_serialization() {
    let mut account = OlmAccount::new();
    account.generate_one_time_keys(1);

    let identity = account.identity_key();
    let otk = account.one_time_keys().into_iter().next().unwrap().1;

    let mut other = OlmAccount::new();
    let mut session = other.create_outbound_session(identity, otk).unwrap();

    let encrypted = session.encrypt(b"test");
    let olm_msg = encrypted.to_olm().unwrap();
    assert_eq!(EncryptedMessage::from_olm(&olm_msg).ciphertext, encrypted.ciphertext);

    let bytes = encrypted.to_bytes();
    let restored = EncryptedMessage::from_bytes(&bytes).unwrap();

    assert_eq!(encrypted.message_type, restored.message_type);
    assert_eq!(encrypted.ciphertext, restored.ciphertext);

    let restored_olm = restored.to_olm().unwrap();

    assert!(matches!(olm_msg, vodozemac::olm::OlmMessage::PreKey(_)));
    assert!(matches!(restored_olm, vodozemac::olm::OlmMessage::PreKey(_)));
}
