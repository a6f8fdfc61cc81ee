use nochat_crypto::pickle::{decode_session_record, encode_session_record, SessionRecord};
use nochat_crypto::ratchet::{ChainMark, EncryptedMessage, SkipWindow, MAX_CHAINS, MAX_SKIP};
use nochat_crypto::errors::CryptoError;

#[test]
fn new_chain_admits_up_to_the_bound() {
    let window = SkipWindow::new();
    let key = [1u8; 32];
    assert_eq!(MAX_SKIP, 1000);
    assert_eq!(window.next_expected(&key), 0);
    assert!(window.admits(&key, 0));
    assert!(window.admits(&key, 1000));
    assert!(!window.admits(&key, 1001));
    assert!(!window.admits(&key, u64::MAX));
}

#[test]
fn recorded_chain_moves_its_bound() {
    let mut window = SkipWindow::new();
    let key = [1u8; 32];
    window.record(key, 5);
    assert_eq!(window.next_expected(&key), 6);
    assert!(window.admits(&key, 0));
    assert!(window.admits(&key, 5));
    assert!(window.admits(&key, 1006));
    assert!(!window.admits(&key, 1007));
    window.record(key, 2);
    assert_eq!(window.next_expected(&key), 6);
    window.record(key, 6);
    assert_eq!(window.next_expected(&key), 7);
    assert_eq!(window.marks().len(), 1);
    let other = [2u8; 32];
    assert_eq!(window.next_expected(&other), 0);
    assert!(!window.admits(&other, 1001));
}

#[test]
fn largest_index_does_not_wrap() {
    let mut window = SkipWindow::new();
    let key = [3u8; 32];
    window.record(key, u64::MAX);
    assert_eq!(window.next_expected(&key), u64::MAX);
    assert!(window.admits(&key, u64::MAX));
}

#[test]
fn oldest_chain_makes_room() {
    let mut window = SkipWindow::new();
    assert_eq!(MAX_CHAINS, 5);
    for i in 0..6u8 {
        window.record([i; 32], 10 + i as u64);
    }
    assert_eq!(window.marks().len(), 5);
    assert_eq!(window.next_expected(&[0u8; 32]), 0);
    assert_eq!(window.next_expected(&[1u8; 32]), 12);
    assert_eq!(window.next_expected(&[5u8; 32]), 16);
    assert_eq!(window.marks()[0].ratchet_key, [1u8; 32]);
    assert_eq!(window.marks()[4].ratchet_key, [5u8; 32]);
}

#[test]
fn message_wire_form_is_type_then_bytes() {
    let message = EncryptedMessage { message_type: 1, ciphertext: vec![9, 8] };
    assert_eq!(message.to_bytes(), vec![1, 9, 8]);
    let back = EncryptedMessage::from_bytes(&[0, 7, 7, 7]).unwrap();
    assert_eq!(back.message_type, 0);
    assert_eq!(back.ciphertext, vec![7, 7, 7]);
    let bare = EncryptedMessage::from_bytes(&[1]).unwrap();
    assert_eq!(bare.message_type, 1);
    assert!(bare.ciphertext.is_empty());
    assert!(matches!(EncryptedMessage::from_bytes(&[]), Err(CryptoError::DecryptionError(_))));
}

#[test]
fn message_of_unknown_type_does_not_decode() {
    let odd = EncryptedMessage { message_type: 2, ciphertext: vec![1, 2, 3] };
    assert!(matches!(odd.to_olm(), Err(CryptoError::DecryptionError(_))));
    let garbage = EncryptedMessage { message_type: 1, ciphertext: vec![1, 2, 3] };
    assert!(matches!(garbage.to_olm(), Err(CryptoError::DecryptionError(_))));
}

#[test]
fn stored_session_has_the_documented_layout() {
    let record = SessionRecord {
        peer_key: [0x11; 32],
        messages_sent: 2,
        messages_received: 0x0102,
        marks: vec![ChainMark { ratchet_key: [0x22; 32], next_index: 7 }],
        ratchet_state: vec![0xEE, 0xFF],
    };
    let bytes = encode_session_record(&record);
    let mut expected = vec![1u8];
    expected.extend_from_slice(&[0x11; 32]);
    expected.extend_from_slice(&[2, 0, 0, 0, 0, 0, 0, 0]);
    expected.extend_from_slice(&[2, 1, 0, 0, 0, 0, 0, 0]);
    expected.extend_from_slice(&[1, 0, 0, 0, 0, 0, 0, 0]);
    expected.extend_from_slice(&[0x22; 32]);
    expected.extend_from_slice(&[7, 0, 0, 0, 0, 0, 0, 0]);
    expected.extend_from_slice(&[0xEE, 0xFF]);
    assert_eq!(bytes, expected);

    let back = decode_session_record(&bytes).unwrap();
    assert_eq!(back.peer_key, record.peer_key);
    assert_eq!(back.messages_sent, 2);
    assert_eq!(back.messages_received, 0x0102);
    assert_eq!(back.marks.len(), 1);
    assert_eq!(back.marks[0].ratchet_key, [0x22; 32]);
    assert_eq!(back.marks[0].next_index, 7);
    assert_eq!(back.ratchet_state, vec![0xEE, 0xFF]);
}

#[test]
fn stored_session_of_wrong_shape_is_refused() {
    let record = SessionRecord {
        peer_key: [0x11; 32],
        messages_sent: 0,
        messages_received: 0,
        marks: vec![ChainMark { ratchet_key: [0x22; 32], next_index: 7 }],
        ratchet_state: vec![],
    };
    let bytes = encode_session_record(&record);
    assert!(decode_session_record(&bytes).is_some());
    assert!(decode_session_record(&bytes[..bytes.len() - 1]).is_none());
    assert!(decode_session_record(&bytes[..56]).is_none());
    assert!(decode_session_record(&[]).is_none());
    let mut wrong_version = bytes.clone();
    wrong_version[0] = 2;
    assert!(decode_session_record(&wrong_version).is_none());
    let mut huge_count = bytes.clone();
    for b in &mut huge_count[49..57] {
        *b = 0xFF;
    }
    assert!(decode_session_record(&huge_count).is_none());

    let empty = SessionRecord {
        peer_key: [0; 32],
        messages_sent: 0,
        messages_received: 0,
        marks: vec![],
        ratchet_state: vec![],
    };
    let smallest = encode_session_record(&empty);
    assert_eq!(smallest.len(), 57);
    assert!(decode_session_record(&smallest).is_some());
}
