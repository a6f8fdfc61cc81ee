//! Accounts, Double Ratchet sessions and the wire form of one message.
//!
//! The ratchet itself is the Olm implementation's; a session here carries it
//! together with what the library itself decides: who the peer is, how many
//! messages went each way, and how far ahead in a receiving chain a message
//! may lie before it is refused unread.

use vstd::prelude::*;
use vstd::slice::slice_subrange;
use vstd::string::*;
use vodozemac::olm::{Account, OlmMessage, Session};
use vstd::array::array_as_slice;
use crate::bytes::{append_bytes, arrays32_equal};
use crate::encoding::{hex_encode, hex_encoding};
use crate::errors::{CryptoError, CryptoResult};
use crate::olm::{
    account_create_inbound_session, account_create_outbound_session, account_curve25519_key,
    account_ed25519_key, account_from_json, account_generate_one_time_keys,
    account_json_identity, account_json_signing_key, account_json_valid,
    account_mark_keys_as_published, account_max_one_time_keys, account_new,
    account_one_time_keys, account_stored_key_count, account_stored_one_time_key_count,
    account_to_json, account_unpublished_keys,
    generated_keys, key_bytes, KEY_STORE_LIMIT,
    lists_held_keys, listed_ids, listed_keys, no_keys, olm_from_parts, olm_position, olm_to_parts,
    PUBLISHED_KEY_LIMIT,
    session_decrypt, session_encrypt, session_from_json, session_id, session_json_id,
    session_json_valid,
    session_snapshot, session_to_json,
};
use crate::pickle::{
    decode_session_record, encode_session_record, is_record, lemma_record_round_trip,
    record_bytes, stored_count, stored_mark_key, stored_mark_next,
    stored_peer_key, stored_ratchet_state, stored_received, stored_sent, SessionRecord,
};
use crate::sessions::{open_text, seal_to_text, unsealed_text};

pub use crate::sessions::PickleKey;

verus! {

/// The largest number of message keys of one receiving chain that a single
/// message may skip.
pub const MAX_SKIP: u64 = 1000;

/// The number of receiving chains whose progress is remembered.
pub const MAX_CHAINS: usize = 5;

/// How far one receiving chain has been read: the peer's ratchet key that
/// names the chain, and the index after the highest one decrypted so far.
#[derive(Debug, Clone, Copy)]
pub struct ChainMark {
    /// The peer's ratchet public key.
    pub ratchet_key: [u8; 32],
    /// The index after the highest message index decrypted in this chain.
    pub next_index: u64,
}

/// Whether a chain with the given ratchet key is among the marks.
pub open spec fn knows(marks: Seq<ChainMark>, key: Seq<u8>) -> bool {
    exists|i: int| 0 <= i < marks.len() && (#[trigger] marks[i]).ratchet_key@ == key
}

/// Where the chain with the given ratchet key first stands among the marks.
pub open spec fn mark_position(marks: Seq<ChainMark>, key: Seq<u8>) -> int {
    choose|i: int|
        0 <= i < marks.len() && (#[trigger] marks[i]).ratchet_key@ == key && forall|j: int|
            0 <= j < i ==> (#[trigger] marks[j]).ratchet_key@ != key
}

/// The index that the chain with the given ratchet key expects next: zero
/// for a chain that is not known.
pub open spec fn next_expected(marks: Seq<ChainMark>, key: Seq<u8>) -> u64 {
    if knows(marks, key) {
        marks[mark_position(marks, key)].next_index
    } else {
        0
    }
}

/// The number of message keys that a message at `index` skips in its chain.
pub open spec fn skipped_keys(marks: Seq<ChainMark>, key: Seq<u8>, index: u64) -> int {
    if index > next_expected(marks, key) {
        index - next_expected(marks, key)
    } else {
        0
    }
}

/// Whether a message at `index` of the chain `key` may be handed to the
/// ratchet: it skips at most `MAX_SKIP` keys.
pub open spec fn admits(marks: Seq<ChainMark>, key: Seq<u8>, index: u64) -> bool {
    skipped_keys(marks, key, index) <= MAX_SKIP
}

/// The index after `index`, held at the largest value.
pub open spec fn following(index: u64) -> u64 {
    if index == u64::MAX {
        index
    } else {
        (index + 1) as u64
    }
}

/// The 32 bytes of a ratchet key as an array.
pub open spec fn key_of(bytes: Seq<u8>) -> [u8; 32] {
    choose|key: [u8; 32]| key@ == bytes
}

/// An array is the array of its own bytes.
pub proof fn lemma_key_of(key: [u8; 32])
    ensures
        key_of(key@) == key,
{
    vstd::array::axiom_array_ext_equal(key_of(key@), key);
}

/// The marks after a message at `index` of the chain `key` was decrypted. A
/// known chain moves forward if the message lay ahead; a new chain is added
/// at the end, and the oldest mark makes room for it where `MAX_CHAINS` are
/// kept already.
pub open spec fn recorded(marks: Seq<ChainMark>, key: Seq<u8>, index: u64) -> Seq<ChainMark> {
    if knows(marks, key) {
        let at = mark_position(marks, key);
        if marks[at].next_index < following(index) {
            marks.update(at, ChainMark { ratchet_key: marks[at].ratchet_key, next_index: following(index) })
        } else {
            marks
        }
    } else if marks.len() >= MAX_CHAINS {
        marks.drop_first().push(ChainMark { ratchet_key: key_of(key), next_index: following(index) })
    } else {
        marks.push(ChainMark { ratchet_key: key_of(key), next_index: following(index) })
    }
}

/// A message that lies more than `MAX_SKIP` keys ahead of what its chain
/// expects is not admitted, whatever the marks; one at or behind the expected
/// index always is.
pub proof fn lemma_skip_bound(marks: Seq<ChainMark>, key: Seq<u8>, index: u64)
    ensures
        index - next_expected(marks, key) > MAX_SKIP ==> !admits(marks, key, index),
        index <= next_expected(marks, key) + MAX_SKIP ==> admits(marks, key, index),
{
}

/// After a message was recorded its chain is known, and expects an index
/// beyond that message's unless the index was the largest there is.
pub proof fn lemma_recorded_moves_on(marks: Seq<ChainMark>, key: [u8; 32], index: u64)
    ensures
        knows(recorded(marks, key@, index), key@),
        next_expected(recorded(marks, key@, index), key@) >= following(index),
        recorded(marks, key@, index).len() <= if marks.len() >= MAX_CHAINS {
            marks.len()
        } else {
            marks.len() + 1
        },
{
    lemma_key_of(key);
    let after = recorded(marks, key@, index);
    if knows(marks, key@) {
        let some = choose|i: int| 0 <= i < marks.len() && (#[trigger] marks[i]).ratchet_key@ == key@;
        lemma_mark_position(marks, key@, some);
        let at = mark_position(marks, key@);
        assert(after[at].ratchet_key@ == key@);
        assert forall|j: int| 0 <= j < at implies (#[trigger] after[j]).ratchet_key@ != key@ by {
            assert(after[j].ratchet_key == marks[j].ratchet_key);
        }
        lemma_first_mark(after, key@, at);
    } else {
        let last = after.len() - 1;
        assert(after[last].ratchet_key@ == key@);
        assert forall|j: int| 0 <= j < last implies (#[trigger] after[j]).ratchet_key@ != key@ by {
            if marks.len() >= MAX_CHAINS {
                assert(after[j] == marks[j + 1]);
            } else {
                assert(after[j] == marks[j]);
            }
        }
        lemma_first_mark(after, key@, last);
    }
}

/// A key that stands at `at` has a position, at or before `at`, that holds
/// it and has no earlier position holding it.
proof fn lemma_mark_position(marks: Seq<ChainMark>, key: Seq<u8>, at: int)
    requires
        0 <= at < marks.len(),
        marks[at].ratchet_key@ == key,
    ensures
        0 <= mark_position(marks, key) <= at,
        marks[mark_position(marks, key)].ratchet_key@ == key,
        forall|j: int| 0 <= j < mark_position(marks, key) ==> (#[trigger] marks[j]).ratchet_key@ != key,
    decreases at,
{
    if exists|j: int| 0 <= j < at && (#[trigger] marks[j]).ratchet_key@ == key {
        let j = choose|j: int| 0 <= j < at && (#[trigger] marks[j]).ratchet_key@ == key;
        lemma_mark_position(marks, key, j);
    } else {
        lemma_first_mark(marks, key, at);
    }
}

/// A position that holds the key and has no earlier position holding it is
/// the key's position.
proof fn lemma_first_mark(marks: Seq<ChainMark>, key: Seq<u8>, at: int)
    requires
        0 <= at < marks.len(),
        marks[at].ratchet_key@ == key,
        forall|j: int| 0 <= j < at ==> (#[trigger] marks[j]).ratchet_key@ != key,
    ensures
        knows(marks, key),
        mark_position(marks, key) == at,
{
    let p = mark_position(marks, key);
    assert(0 <= p < marks.len() && marks[p].ratchet_key@ == key && forall|j: int|
        0 <= j < p ==> (#[trigger] marks[j]).ratchet_key@ != key);
}

/// The record of how far each receiving chain has been read.
pub struct SkipWindow {
    marks: Vec<ChainMark>,
}

impl SkipWindow {
    /// The marks, oldest chain first.
    pub closed spec fn view(&self) -> Seq<ChainMark> {
        self.marks@
    }

    /// A window that knows no chain.
    pub fn new() -> (window: Self)
        ensures
            window@ == Seq::<ChainMark>::empty(),
    {
        SkipWindow { marks: Vec::new() }
    }

    /// A window with the given marks.
    pub fn from_marks(marks: Vec<ChainMark>) -> (window: Self)
        ensures
            window@ == marks@,
    {
        SkipWindow { marks }
    }

    /// The marks, oldest chain first.
    pub fn marks(&self) -> (marks: &Vec<ChainMark>)
        ensures
            marks@ == self@,
    {
        &self.marks
    }

    /// A copy of the marks.
    pub fn snapshot(&self) -> (marks: Vec<ChainMark>)
        ensures
            marks@ == self@,
    {
        let mut marks: Vec<ChainMark> = Vec::new();
        let mut i: usize = 0;
        while i < self.marks.len()
            invariant
                i <= self.marks@.len(),
                marks@ == self.marks@.subrange(0, i as int),
            decreases self.marks@.len() - i,
        {
            marks.push(self.marks[i]);
            assert(marks@ =~= self.marks@.subrange(0, i + 1));
            i += 1;
        }
        assert(marks@ =~= self.marks@);
        marks
    }

    /// Where the chain with the given ratchet key stands, if it is known.
    fn find(&self, key: &[u8; 32]) -> (at: Option<usize>)
        ensures
            at is Some <==> knows(self@, key@),
            at is Some ==> at->0 == mark_position(self@, key@) && at->0 < self@.len(),
    {
        let mut i: usize = 0;
        while i < self.marks.len()
            invariant
                i <= self.marks@.len(),
                forall|j: int| 0 <= j < i ==> (#[trigger] self.marks@[j]).ratchet_key@ != key@,
            decreases self.marks@.len() - i,
        {
            if arrays32_equal(&self.marks[i].ratchet_key, key) {
                proof {
                    lemma_first_mark(self.marks@, key@, i as int);
                }
                return Some(i);
            }
            i += 1;
        }
        None
    }

    /// The index that the chain with the given ratchet key expects next.
    pub fn next_expected(&self, key: &[u8; 32]) -> (next: u64)
        ensures
            next == next_expected(self@, key@),
    {
        match self.find(key) {
            Some(at) => self.marks[at].next_index,
            None => 0,
        }
    }

    /// Whether a message at `index` of the chain `key` skips no more than
    /// `MAX_SKIP` keys.
    pub fn admits(&self, key: &[u8; 32], index: u64) -> (admitted: bool)
        ensures
            admitted == admits(self@, key@, index),
    {
        let next = self.next_expected(key);
        if index <= next {
            true
        } else {
            index - next <= MAX_SKIP
        }
    }

    /// Notes that a message at `index` of the chain `key` was decrypted.
    pub fn record(&mut self, key: [u8; 32], index: u64)
        ensures
            final(self)@ == recorded(old(self)@, key@, index),
    {
        let next: u64 = if index == u64::MAX {
            index
        } else {
            index + 1
        };
        match self.find(&key) {
            Some(at) => {
                let mark = self.marks[at];
                if mark.next_index < next {
                    self.marks[at] = ChainMark { ratchet_key: mark.ratchet_key, next_index: next };
                }
            },
            None => {
                if self.marks.len() >= MAX_CHAINS {
                    let _ = self.marks.remove(0);
                }
                self.marks.push(ChainMark { ratchet_key: key, next_index: next });
            },
        }
        proof {
            lemma_key_of(key);
        }
        assert(self.marks@ =~= recorded(old(self)@, key@, index));
    }
}

/// One message as it travels: the Olm message type and the encoded message.
#[derive(Debug, Clone)]
pub struct EncryptedMessage {
    /// 0 for a pre-key message, 1 for a normal one.
    pub message_type: u8,
    /// The encoded Olm message.
    pub ciphertext: Vec<u8>,
}

/// The wire form of a message: the type byte, then the encoded message.
pub open spec fn message_wire(message_type: u8, ciphertext: Seq<u8>) -> Seq<u8> {
    seq![message_type] + ciphertext
}

/// A wire form taken apart again: `None` for the empty string.
pub open spec fn message_parts(wire: Seq<u8>) -> Option<(u8, Seq<u8>)> {
    if wire.len() == 0 {
        None
    } else {
        Some((wire[0], wire.subrange(1, wire.len() as int)))
    }
}

/// Taking the wire form of a message apart gives the message back.
pub proof fn lemma_message_wire_round_trip(message_type: u8, ciphertext: Seq<u8>)
    ensures
        message_parts(message_wire(message_type, ciphertext)) == Some((message_type, ciphertext)),
{
    let wire = message_wire(message_type, ciphertext);
    assert(wire.subrange(1, wire.len() as int) =~= ciphertext);
}

impl EncryptedMessage {
    /// The type and encoding of a decoded Olm message. The type is 0 or 1,
    /// and the encoding is one that `to_olm` decodes again.
    pub fn from_olm(message: &OlmMessage) -> (encoded: Self)
        ensures
            encoded.message_type <= 1,
            olm_position(encoded.message_type, encoded.ciphertext@) is Some,
    {
        let parts = olm_to_parts(message);
        EncryptedMessage { message_type: parts.0 as u8, ciphertext: parts.1 }
    }

    /// Decodes the Olm message. A type other than 0 and 1, or bytes that do
    /// not decode as a message of the type, are a decryption error.
    pub fn to_olm(&self) -> (r: CryptoResult<OlmMessage>)
        ensures
            r is Ok <==> olm_position(self.message_type, self.ciphertext@) is Some,
            r is Ok ==> self.message_type <= 1,
            r is Err ==> r->Err_0 is DecryptionError,
    {
        match olm_from_parts(self.message_type, self.ciphertext.as_slice()) {
            Some(decoded) => Ok(decoded.0),
            None => Err(CryptoError::DecryptionError(String::from_str("Invalid Olm message"))),
        }
    }

    /// The wire form: the type byte, then the encoded message.
    pub fn to_bytes(&self) -> (bytes: Vec<u8>)
        ensures
            bytes@ == message_wire(self.message_type, self.ciphertext@),
    {
        let mut bytes: Vec<u8> = Vec::new();
        bytes.push(self.message_type);
        append_bytes(&mut bytes, self.ciphertext.as_slice());
        assert(bytes@ =~= message_wire(self.message_type, self.ciphertext@));
        bytes
    }

    /// Reads the wire form. Empty input is a decryption error.
    pub fn from_bytes(bytes: &[u8]) -> (r: CryptoResult<Self>)
        ensures
            r is Ok <==> bytes@.len() > 0,
            r is Ok ==> message_parts(bytes@) == Some((r->Ok_0.message_type, r->Ok_0.ciphertext@)),
            r is Err ==> r->Err_0 is DecryptionError,
    {
        if bytes.len() == 0 {
            return Err(CryptoError::DecryptionError(String::from_str("Empty message bytes")));
        }
        let rest = slice_subrange(bytes, 1, bytes.len());
        Ok(EncryptedMessage { message_type: bytes[0], ciphertext: vstd::slice::slice_to_vec(rest) })
    }
}

/// The ratchet key in the header of an encoded message; empty where the
/// message does not decode.
pub open spec fn header_key(message: EncryptedMessage) -> Seq<u8> {
    match olm_position(message.message_type, message.ciphertext@) {
        Some(p) => p.0,
        None => Seq::empty(),
    }
}

/// The chain index in the header of an encoded message; zero where the
/// message does not decode.
pub open spec fn header_index(message: EncryptedMessage) -> u64 {
    match olm_position(message.message_type, message.ciphertext@) {
        Some(p) => p.1,
        None => 0,
    }
}

/// Whether an encoded message decodes.
pub open spec fn decodes(message: EncryptedMessage) -> bool {
    olm_position(message.message_type, message.ciphertext@) is Some
}

/// Counts of one session, for display.
#[derive(Debug, Clone)]
pub struct SessionStats {
    /// The peer's id.
    pub peer_id: String,
    /// The session's id.
    pub session_id: String,
    /// Number of messages sent.
    pub messages_sent: u64,
    /// Number of messages received.
    pub messages_received: u64,
}

/// A Double Ratchet session with one peer.
pub struct RatchetSession {
    inner: Session,
    id: String,
    peer_key: [u8; 32],
    messages_sent: u64,
    messages_received: u64,
    window: SkipWindow,
}

impl RatchetSession {
    /// The ratchet.
    pub closed spec fn ratchet(&self) -> Session {
        self.inner
    }

    /// This session around another ratchet.
    pub closed spec fn with_ratchet(self, ratchet: Session) -> Self {
        RatchetSession {
            inner: ratchet,
            id: self.id,
            peer_key: self.peer_key,
            messages_sent: self.messages_sent,
            messages_received: self.messages_received,
            window: self.window,
        }
    }

    /// The session's id.
    pub closed spec fn id_text(&self) -> Seq<char> {
        self.id@
    }

    /// The peer's identity key.
    pub closed spec fn peer_key_bytes(&self) -> Seq<u8> {
        self.peer_key@
    }

    /// Number of messages sent.
    pub closed spec fn sent(&self) -> u64 {
        self.messages_sent
    }

    /// Number of messages received.
    pub closed spec fn received(&self) -> u64 {
        self.messages_received
    }

    /// How far each receiving chain has been read.
    pub closed spec fn marks(&self) -> Seq<ChainMark> {
        self.window@
    }

    /// Whether a sealed text opens under the key to the stored form of a
    /// session whose ratchet state reads back.
    pub open spec fn restorable(pickled: Seq<char>, pickle_key: Seq<u8>) -> bool {
        &&& unsealed_text(pickle_key, pickled) is Some
        &&& is_record(unsealed_text(pickle_key, pickled)->0)
        &&& session_json_valid(stored_ratchet_state(unsealed_text(pickle_key, pickled)->0))
    }

    /// Whether this session has the id, peer, counts and marks that the
    /// stored form of a session says.
    pub open spec fn holds_stored(&self, plain: Seq<u8>) -> bool {
        &&& self.id_text() == session_json_id(stored_ratchet_state(plain))
        &&& self.peer_key_bytes() == stored_peer_key(plain)
        &&& self.sent() == stored_sent(plain)
        &&& self.received() == stored_received(plain)
        &&& self.marks().len() == stored_count(plain)
        &&& forall|i: int|
            0 <= i < self.marks().len() ==> (#[trigger] self.marks()[i]).ratchet_key@
                == stored_mark_key(plain, i) && self.marks()[i].next_index == stored_mark_next(
                plain,
                i,
            )
    }

    /// Whether a sealed text holds this session: it opens under the key to
    /// the stored form of this session's peer, counts and marks around a
    /// ratchet state that reads back as a session.
    pub open spec fn sealed_in(&self, pickled: Seq<char>, pickle_key: Seq<u8>) -> bool {
        &&& self.marks().len() <= u64::MAX
        &&& self.peer_key_bytes().len() == 32
        &&& exists|state: Seq<u8>|
            {
                &&& session_json_valid(state)
                &&& session_json_id(state) == self.id_text()
                &&& unsealed_text(pickle_key, pickled) == Some(
                    #[trigger] record_bytes(
                        self.peer_key_bytes(),
                        self.sent(),
                        self.received(),
                        self.marks(),
                        state,
                    ),
                )
            }
    }

    /// What holds a session can be restored, and reads back as the peer,
    /// counts and marks of that session.
    pub proof fn lemma_sealed_reads_back(&self, pickled: Seq<char>, pickle_key: Seq<u8>)
        requires
            self.sealed_in(pickled, pickle_key),
        ensures
            Self::restorable(pickled, pickle_key),
            self.holds_stored(unsealed_text(pickle_key, pickled)->0),
    {
        let state = choose|state: Seq<u8>|
            {
                &&& session_json_valid(state)
                &&& session_json_id(state) == self.id_text()
                &&& unsealed_text(pickle_key, pickled) == Some(
                    #[trigger] record_bytes(
                        self.peer_key_bytes(),
                        self.sent(),
                        self.received(),
                        self.marks(),
                        state,
                    ),
                )
            };
        lemma_record_round_trip(
            self.peer_key_bytes(),
            self.sent(),
            self.received(),
            self.marks(),
            state,
        );
    }

    /// A session around a ratchet, with the peer's identity key and the
    /// receiving progress made while the ratchet was set up.
    pub(crate) fn new(session: Session, peer_key: [u8; 32], window: SkipWindow) -> (created: Self)
        ensures
            created.ratchet() == session,
            created.peer_key_bytes() == peer_key@,
            created.sent() == 0,
            created.received() == 0,
            created.marks() == window@,
    {
        let id = session_id(&session);
        RatchetSession { inner: session, id, peer_key, messages_sent: 0, messages_received: 0, window }
    }

    /// The peer's id: the lowercase hexadecimal form of its identity key.
    pub fn peer_id(&self) -> (id: String)
        ensures
            id@ == hex_encoding(self.peer_key_bytes()),
    {
        hex_encode(array_as_slice(&self.peer_key))
    }

    /// The peer's identity key.
    pub fn peer_key(&self) -> (key: [u8; 32])
        ensures
            key@ == self.peer_key_bytes(),
    {
        self.peer_key
    }

    /// Number of messages sent.
    pub fn messages_sent(&self) -> (count: u64)
        ensures
            count == self.sent(),
    {
        self.messages_sent
    }

    /// Number of messages received.
    pub fn messages_received(&self) -> (count: u64)
        ensures
            count == self.received(),
    {
        self.messages_received
    }

    /// Encrypts a message for the peer and counts it. The ratchet moves on;
    /// nothing else changes. Until the peer's first reply is decrypted the
    /// ratchet gives pre-key messages, normal ones after.
    pub fn encrypt(&mut self, plaintext: &[u8]) -> (message: EncryptedMessage)
        ensures
            message.message_type <= 1,
            decodes(message),
            final(self).sent() == following(old(self).sent()),
            final(self).received() == old(self).received(),
            final(self).marks() == old(self).marks(),
            final(self).peer_key_bytes() == old(self).peer_key_bytes(),
            final(self).id_text() == old(self).id_text(),
    {
        if self.messages_sent < u64::MAX {
            self.messages_sent = self.messages_sent + 1;
        }
        let message = session_encrypt(&mut self.inner, plaintext);
        EncryptedMessage::from_olm(&message)
    }

    /// Decrypts a message from the peer.
    ///
    /// A message that does not decode, or that lies more than `MAX_SKIP`
    /// keys ahead of what its chain expects, is refused before the ratchet
    /// sees it. The ratchet works on the session with a copy kept aside; if
    /// it refuses the message the copy is put back. So whatever the reason
    /// for a failure, the session is left exactly as it was. On success the
    /// message is counted and its chain marked.
    pub fn decrypt(&mut self, message: &EncryptedMessage) -> (r: CryptoResult<Vec<u8>>)
        ensures
            !decodes(*message) ==> r is Err,
            !admits(old(self).marks(), header_key(*message), header_index(*message)) ==> r is Err,
            r is Err ==> r->Err_0 is DecryptionError && *final(self) == *old(self),
            r is Ok ==> {
                &&& final(self).received() == following(old(self).received())
                &&& final(self).marks() == recorded(
                    old(self).marks(),
                    header_key(*message),
                    header_index(*message),
                )
                &&& final(self).sent() == old(self).sent()
                &&& final(self).peer_key_bytes() == old(self).peer_key_bytes()
                &&& final(self).id_text() == old(self).id_text()
            },
    {
        let decoded = match olm_from_parts(message.message_type, message.ciphertext.as_slice()) {
            Some(d) => d,
            None => {
                return Err(CryptoError::DecryptionError(String::from_str("Invalid Olm message")));
            },
        };
        let ratchet_key: [u8; 32] = decoded.1;
        let chain_index: u64 = decoded.2;
        if !self.window.admits(&ratchet_key, chain_index) {
            return Err(
                CryptoError::DecryptionError(String::from_str("Message skips too many keys")),
            );
        }
        let kept = session_snapshot(&self.inner);
        let outcome = session_decrypt(&mut self.inner, &decoded.0);
        self.settle(ratchet_key, chain_index, outcome, kept)
    }

    /// Takes what the ratchet made of an admitted message: a plaintext is
    /// counted and its chain marked; after a refusal the ratchet that was
    /// kept aside is put back and nothing else changes.
    fn settle(&mut self, ratchet_key: [u8; 32], chain_index: u64, outcome: Option<Vec<u8>>, kept: Session) -> (r: CryptoResult<Vec<u8>>)
        ensures
            r is Ok <==> outcome is Some,
            r is Ok ==> r->Ok_0 == outcome->0,
            r is Err ==> {
                &&& r->Err_0 is DecryptionError
                &&& final(self).ratchet() == kept
                &&& final(self).received() == old(self).received()
                &&& final(self).marks() == old(self).marks()
                &&& final(self).sent() == old(self).sent()
                &&& final(self).peer_key_bytes() == old(self).peer_key_bytes()
                &&& final(self).id_text() == old(self).id_text()
            },
            r is Err ==> *final(self) == old(self).with_ratchet(kept),
            r is Ok ==> {
                &&& final(self).received() == following(old(self).received())
                &&& final(self).marks() == recorded(old(self).marks(), ratchet_key@, chain_index)
                &&& final(self).sent() == old(self).sent()
                &&& final(self).peer_key_bytes() == old(self).peer_key_bytes()
                &&& final(self).id_text() == old(self).id_text()
                &&& final(self).ratchet() == old(self).ratchet()
            },
    {
        match outcome {
            Some(plaintext) => {
                if self.messages_received < u64::MAX {
                    self.messages_received = self.messages_received + 1;
                }
                self.window.record(ratchet_key, chain_index);
                Ok(plaintext)
            },
            None => {
                self.inner = kept;
                Err(CryptoError::DecryptionError(String::from_str("Message does not decrypt")))
            },
        }
    }

    /// The session's id, for logs. It is set when the session is made and
    /// never changes.
    pub fn session_id(&self) -> (id: String)
        ensures
            id@ == self.id_text(),
    {
        self.id.clone()
    }

    /// Whether a message from the peer has been decrypted by `decrypt`.
    pub fn has_received_message(&self) -> (received: bool)
        ensures
            received == (self.received() > 0),
    {
        self.messages_received > 0
    }

    /// The session sealed under the pickle key, as text. What comes out
    /// opens under the same key to the stored form of this session's peer,
    /// counts and marks around a ratchet state that reads back as a session.
    pub fn pickle(&self, pickle_key: &PickleKey) -> (r: CryptoResult<String>)
        ensures
            r is Ok ==> Self::restorable(r->Ok_0@, pickle_key@),
            r is Ok ==> self.sealed_in(r->Ok_0@, pickle_key@),
            r is Err ==> r->Err_0 is SerializationError || r->Err_0 is EncryptionError || r->Err_0
                is InternalError,
    {
        let written = match session_to_json(&self.inner) {
            Some(w) => w,
            None => {
                return Err(
                    CryptoError::SerializationError(String::from_str("Session does not serialize")),
                );
            },
        };
        if written.1 != self.id {
            return Err(CryptoError::InternalError(String::from_str("Session id has changed")));
        }
        let ratchet_state = written.0;
        let ghost state = ratchet_state@;
        let record = SessionRecord {
            peer_key: self.peer_key,
            messages_sent: self.messages_sent,
            messages_received: self.messages_received,
            marks: self.window.snapshot(),
            ratchet_state,
        };
        let count: usize = record.marks.len();
        let plain = encode_session_record(&record);
        let sealed = seal_to_text(pickle_key, plain.as_slice());
        proof {
            if sealed is Ok {
                assert(self.marks().len() == count);
                lemma_record_round_trip(
                    self.peer_key_bytes(),
                    self.sent(),
                    self.received(),
                    self.marks(),
                    state,
                );
                assert(session_json_valid(state) && session_json_id(state) == self.id_text()
                    && unsealed_text(pickle_key@, sealed->Ok_0@) == Some(
                    record_bytes(
                        self.peer_key_bytes(),
                        self.sent(),
                        self.received(),
                        self.marks(),
                        state,
                    ),
                ));
            }
        }
        sealed
    }

    /// Restores a session from its sealed text.
    ///
    /// Text that is not base64 is a serialization error; a blob that does
    /// not authenticate under the key is vault corruption; authentic bytes
    /// that are no stored session, or whose ratchet state does not read back,
    /// are a corrupted session. Otherwise the session has the peer, counts
    /// and marks that were stored.
    pub fn unpickle(pickled: &str, pickle_key: &PickleKey) -> (r: CryptoResult<Self>)
        ensures
            r is Ok <==> Self::restorable(pickled@, pickle_key@),
            r is Ok ==> r->Ok_0.holds_stored(unsealed_text(pickle_key@, pickled@)->0),
            r is Err ==> (r->Err_0 is SerializationError <==> crate::encoding::base64_decoding(pickled@)
                is None),
            r is Err ==> (r->Err_0 is VaultError <==> crate::encoding::base64_decoding(pickled@) is Some
                && unsealed_text(pickle_key@, pickled@) is None),
            r is Err ==> (r->Err_0 is SessionCorrupted <==> unsealed_text(pickle_key@, pickled@)
                is Some),
    {
        let plain = match open_text(pickle_key, pickled) {
            Ok(p) => p,
            Err(e) => {
                return Err(e);
            },
        };
        let record = match decode_session_record(plain.as_slice()) {
            Some(r) => r,
            None => {
                return Err(CryptoError::SessionCorrupted(String::from_str("Not a stored session")));
            },
        };
        let read = match session_from_json(record.ratchet_state.as_slice()) {
            Some(s) => s,
            None => {
                return Err(
                    CryptoError::SessionCorrupted(String::from_str("Ratchet state does not read back")),
                );
            },
        };
        Ok(
            RatchetSession {
                inner: read.0,
                id: read.1,
                peer_key: record.peer_key,
                messages_sent: record.messages_sent,
                messages_received: record.messages_received,
                window: SkipWindow::from_marks(record.marks),
            },
        )
    }

    /// The session's counts, for display.
    pub fn stats(&self) -> (stats: SessionStats)
        ensures
            stats.peer_id@ == hex_encoding(self.peer_key_bytes()),
            stats.session_id@ == self.id_text(),
            stats.messages_sent == self.sent(),
            stats.messages_received == self.received(),
    {
        SessionStats {
            peer_id: self.peer_id(),
            session_id: self.session_id(),
            messages_sent: self.messages_sent,
            messages_received: self.messages_received,
        }
    }
}

/// What `pickle` seals is what `unpickle` accepts: bytes that are the stored
/// form of a peer, counts and marks around a ratchet state that reads back
/// have the shape of a stored session, and each part read from them is the
/// part that was stored.
pub proof fn lemma_pickle_round_trip(
    peer_key: Seq<u8>,
    sent: u64,
    received: u64,
    marks: Seq<ChainMark>,
    state: Seq<u8>,
)
    requires
        peer_key.len() == 32,
        marks.len() <= u64::MAX,
        session_json_valid(state),
    ensures
        ({
            let plain = record_bytes(peer_key, sent, received, marks, state);
            &&& is_record(plain)
            &&& session_json_valid(stored_ratchet_state(plain))
            &&& stored_peer_key(plain) == peer_key
            &&& stored_sent(plain) == sent
            &&& stored_received(plain) == received
            &&& stored_count(plain) == marks.len()
            &&& forall|i: int|
                0 <= i < marks.len() ==> stored_mark_key(plain, i) == (#[trigger] marks[i]).ratchet_key@
                    && stored_mark_next(plain, i) == marks[i].next_index
        }),
{
    lemma_record_round_trip(peer_key, sent, received, marks, state);
}

/// An account: the long-term identity and the one-time keys of this device.
pub struct OlmAccount {
    inner: Account,
    identity_key: [u8; 32],
    signing_key: [u8; 32],
}

impl OlmAccount {
    /// The account's state.
    pub closed spec fn state(&self) -> Account {
        self.inner
    }

    /// The account's Curve25519 identity key.
    pub closed spec fn identity_bytes(&self) -> Seq<u8> {
        self.identity_key@
    }

    /// The account's Ed25519 signing key.
    pub closed spec fn signing_bytes(&self) -> Seq<u8> {
        self.signing_key@
    }

    /// The one-time keys that are not yet marked as published: each public
    /// key under its id.
    pub closed spec fn unpublished(&self) -> Map<Seq<char>, Seq<u8>> {
        account_unpublished_keys(self.inner)
    }

    /// The number of one-time keys, published or not, that the account
    /// holds.
    pub closed spec fn stored_keys(&self) -> nat {
        account_stored_key_count(self.inner)
    }

    /// Whether an account that holds `stored` one-time keys has room for
    /// `count` more without discarding any.
    pub open spec fn has_room(stored: nat, count: nat) -> bool {
        stored + count <= KEY_STORE_LIMIT
    }

    /// Whether generating `count` one-time keys takes the unpublished keys
    /// from `before` to `after`: there are `count` created keys such that
    /// whatever is held afterwards was held before or is one of them, and
    /// each of them is held afterwards unless it was among the keys
    /// discarded to make room. Where the account had room, none was
    /// discarded.
    pub open spec fn grown_by(before: Map<Seq<char>, Seq<u8>>, after: Map<Seq<char>, Seq<u8>>, count: nat, had_room: bool) -> bool {
        exists|created: Seq<Seq<u8>>, discarded: Seq<Seq<u8>>| #[trigger]
            generated_keys(before, after, count, created, discarded, had_room)
    }

    /// An account around the outside state, with its two public keys read
    /// off once.
    fn around(inner: Account) -> (account: Self)
        ensures
            account.state() == inner,
    {
        let identity_key = account_curve25519_key(&inner);
        let signing_key = account_ed25519_key(&inner);
        OlmAccount { inner, identity_key, signing_key }
    }

    /// Whether a sealed text opens under the key to bytes that describe an
    /// account.
    pub open spec fn restorable(pickled: Seq<char>, pickle_key: Seq<u8>) -> bool {
        unsealed_text(pickle_key, pickled) is Some && account_json_valid(
            unsealed_text(pickle_key, pickled)->0,
        )
    }

    /// Whether a sealed text holds this account's keys: it opens under the
    /// key to bytes that describe an account with this identity key and
    /// this signing key.
    pub open spec fn sealed_in(&self, pickled: Seq<char>, pickle_key: Seq<u8>) -> bool {
        &&& Self::restorable(pickled, pickle_key)
        &&& account_json_identity(unsealed_text(pickle_key, pickled)->0) == self.identity_bytes()
        &&& account_json_signing_key(unsealed_text(pickle_key, pickled)->0) == self.signing_bytes()
    }

    /// A new account with fresh random identity keys and no one-time keys.
    pub fn new() -> (account: Self)
        ensures
            account.unpublished() == no_keys(),
            account.stored_keys() == 0,
    {
        Self::around(account_new())
    }

    /// Restores an account from its sealed text.
    ///
    /// Text that is not base64 is a serialization error; a blob that does
    /// not authenticate under the key is vault corruption; authentic bytes
    /// that do not describe an account are a corrupted session. The account
    /// has the identity key and the signing key that the stored bytes
    /// describe.
    pub fn from_pickle(pickled: &str, pickle_key: &PickleKey) -> (r: CryptoResult<Self>)
        ensures
            r is Ok <==> Self::restorable(pickled@, pickle_key@),
            r is Ok ==> r->Ok_0.sealed_in(pickled@, pickle_key@),
            r is Err ==> (r->Err_0 is SerializationError <==> crate::encoding::base64_decoding(pickled@)
                is None),
            r is Err ==> (r->Err_0 is VaultError <==> crate::encoding::base64_decoding(pickled@) is Some
                && unsealed_text(pickle_key@, pickled@) is None),
            r is Err ==> (r->Err_0 is SessionCorrupted <==> unsealed_text(pickle_key@, pickled@)
                is Some),
    {
        let plain = match open_text(pickle_key, pickled) {
            Ok(p) => p,
            Err(e) => {
                return Err(e);
            },
        };
        match account_from_json(plain.as_slice()) {
            Some(read) => Ok(OlmAccount { inner: read.0, identity_key: read.1, signing_key: read.2 }),
            None => Err(CryptoError::SessionCorrupted(String::from_str("Not a stored account"))),
        }
    }

    /// The account sealed under the pickle key, as text. What comes out
    /// opens under the same key to bytes that read back as an account with
    /// this account's identity key and signing key. Should the outside
    /// state name other keys than this account was made with, nothing is
    /// sealed and an internal error is reported.
    pub fn pickle(&self, pickle_key: &PickleKey) -> (r: CryptoResult<String>)
        ensures
            r is Ok ==> self.sealed_in(r->Ok_0@, pickle_key@),
            r is Err ==> r->Err_0 is SerializationError || r->Err_0 is EncryptionError || r->Err_0
                is InternalError,
    {
        let written = match account_to_json(&self.inner) {
            Some(w) => w,
            None => {
                return Err(
                    CryptoError::SerializationError(String::from_str("Account does not serialize")),
                );
            },
        };
        if !arrays32_equal(&written.1, &self.identity_key) || !arrays32_equal(
            &written.2,
            &self.signing_key,
        ) {
            return Err(CryptoError::InternalError(String::from_str("Account keys have changed")));
        }
        seal_to_text(pickle_key, written.0.as_slice())
    }

    /// The account's Curve25519 identity key.
    pub fn identity_key(&self) -> (key: [u8; 32])
        ensures
            key@ == self.identity_bytes(),
    {
        self.identity_key
    }

    /// The account's Ed25519 signing key.
    pub fn signing_key(&self) -> (key: [u8; 32])
        ensures
            key@ == self.signing_bytes(),
    {
        self.signing_key
    }

    /// Generates `count` new one-time keys, which are held unpublished. The
    /// account keeps a bounded number of keys and discards the oldest beyond
    /// it; where it has room, each new key is held under an id of its own
    /// and the account stores at least `count` keys. The identity stays.
    pub fn generate_one_time_keys(&mut self, count: usize)
        ensures
            Self::grown_by(
                old(self).unpublished(),
                final(self).unpublished(),
                count as nat,
                Self::has_room(old(self).stored_keys(), count as nat),
            ),
            final(self).stored_keys() <= old(self).stored_keys() + count,
            Self::has_room(old(self).stored_keys(), count as nat) ==> final(self).stored_keys()
                >= count,
            final(self).identity_bytes() == old(self).identity_bytes(),
            final(self).signing_bytes() == old(self).signing_bytes(),
    {
        let made = account_generate_one_time_keys(&mut self.inner, count);
        assert(generated_keys(
            old(self).unpublished(),
            self.unpublished(),
            count as nat,
            key_bytes(made.0@),
            key_bytes(made.1@),
            Self::has_room(old(self).stored_keys(), count as nat),
        ));
        assert(key_bytes(made.0@).len() == count);
    }

    /// The one-time keys that have not been published yet, each with its
    /// id, in no particular order: every key that is held unpublished, once.
    pub fn one_time_keys(&self) -> (keys: Vec<(String, [u8; 32])>)
        ensures
            lists_held_keys(listed_ids(keys@), listed_keys(keys@), self.unpublished()),
    {
        account_one_time_keys(&self.inner)
    }

    /// Marks the one-time keys as published: none is held unpublished
    /// afterwards. The identity stays.
    pub fn mark_keys_as_published(&mut self)
        ensures
            final(self).unpublished() == no_keys(),
            final(self).stored_keys() == old(self).stored_keys(),
            final(self).identity_bytes() == old(self).identity_bytes(),
            final(self).signing_bytes() == old(self).signing_bytes(),
    {
        account_mark_keys_as_published(&mut self.inner);
    }

    /// Starts a session with a peer from its identity key and one of its
    /// one-time keys. The session has sent and received nothing and knows no
    /// receiving chain; the account is as it was.
    pub fn create_outbound_session(&mut self, their_identity_key: [u8; 32], their_one_time_key: [u8; 32]) -> (r: CryptoResult<RatchetSession>)
        ensures
            r is Ok,
            r->Ok_0.peer_key_bytes() == their_identity_key@,
            r->Ok_0.sent() == 0,
            r->Ok_0.received() == 0,
            r->Ok_0.marks() == Seq::<ChainMark>::empty(),
            *final(self) == *old(self),
    {
        let session = account_create_outbound_session(
            &self.inner,
            &their_identity_key,
            &their_one_time_key,
        );
        Ok(RatchetSession::new(session, their_identity_key, SkipWindow::new()))
    }

    /// Answers a peer's first message: creates the session and decrypts the
    /// message.
    ///
    /// A message that does not decode is a decryption error; one that
    /// decodes but is no pre-key message is a handshake error. A pre-key
    /// message whose index lies beyond `MAX_SKIP`, or from which the account
    /// can make no session (another identity, a one-time key that is gone
    /// or was used before, a failed authentication), is a decryption error.
    /// On any failure the account is as it was.
    pub fn create_inbound_session(&mut self, their_identity_key: [u8; 32], message: &EncryptedMessage) -> (r: CryptoResult<(RatchetSession, Vec<u8>)>)
        ensures
            !decodes(*message) ==> r is Err,
            message.message_type != 0 ==> r is Err,
            header_index(*message) > MAX_SKIP ==> r is Err,
            r is Err ==> *final(self) == *old(self),
            final(self).unpublished().submap_of(old(self).unpublished()),
            final(self).stored_keys() <= old(self).stored_keys(),
            final(self).identity_bytes() == old(self).identity_bytes(),
            final(self).signing_bytes() == old(self).signing_bytes(),
            r is Err ==> (r->Err_0 is X3dhError <==> decodes(*message) && message.message_type != 0),
            r is Err ==> (r->Err_0 is DecryptionError <==> !(decodes(*message) && message.message_type
                != 0)),
            r is Ok ==> {
                let session = r->Ok_0.0;
                &&& session.peer_key_bytes() == their_identity_key@
                &&& session.sent() == 0
                &&& session.received() == 0
                &&& session.marks() == recorded(
                    Seq::<ChainMark>::empty(),
                    header_key(*message),
                    header_index(*message),
                )
            },
    {
        let decoded = match olm_from_parts(message.message_type, message.ciphertext.as_slice()) {
            Some(d) => d,
            None => {
                return Err(CryptoError::DecryptionError(String::from_str("Invalid Olm message")));
            },
        };
        if message.message_type != 0 {
            return Err(
                CryptoError::X3dhError(String::from_str("Expected PreKey message for new session")),
            );
        }
        let ratchet_key: [u8; 32] = decoded.1;
        let chain_index: u64 = decoded.2;
        let window = SkipWindow::new();
        if !window.admits(&ratchet_key, chain_index) {
            return Err(
                CryptoError::DecryptionError(String::from_str("Message skips too many keys")),
            );
        }
        let created = account_create_inbound_session(
            &mut self.inner,
            &their_identity_key,
            &decoded.0,
        );
        Self::admit_created(their_identity_key, ratchet_key, chain_index, created)
    }

    /// Takes what the account made of an admitted first message: a ratchet
    /// with its plaintext becomes the session with the peer, its first
    /// chain marked at the message; a refusal is a decryption error.
    fn admit_created(their_identity_key: [u8; 32], ratchet_key: [u8; 32], chain_index: u64, created: Option<(Session, Vec<u8>)>) -> (r: CryptoResult<(RatchetSession, Vec<u8>)>)
        ensures
            r is Ok <==> created is Some,
            match (r, created) {
                (Ok(made), Some(given)) => {
                    &&& made.1 == given.1
                    &&& made.0.ratchet() == given.0
                    &&& made.0.peer_key_bytes() == their_identity_key@
                    &&& made.0.sent() == 0
                    &&& made.0.received() == 0
                    &&& made.0.marks() == recorded(
                        Seq::<ChainMark>::empty(),
                        ratchet_key@,
                        chain_index,
                    )
                },
                _ => true,
            },
            r is Err ==> r->Err_0 is DecryptionError,
    {
        match created {
            Some(given) => {
                let mut window = SkipWindow::new();
                window.record(ratchet_key, chain_index);
                Ok((RatchetSession::new(given.0, their_identity_key, window), given.1))
            },
            None => Err(
                CryptoError::DecryptionError(String::from_str("Failed to create inbound session")),
            ),
        }
    }

    /// The number of one-time keys, published or not, that the account
    /// holds.
    pub fn stored_one_time_key_count(&self) -> (count: usize)
        ensures
            count == self.stored_keys(),
    {
        account_stored_one_time_key_count(&self.inner)
    }

    /// The largest number of one-time keys that should be published.
    pub fn max_one_time_keys(&self) -> (count: usize)
        ensures
            count == PUBLISHED_KEY_LIMIT,
    {
        account_max_one_time_keys(&self.inner)
    }
}

impl Default for OlmAccount {
    fn default() -> (account: Self)
    {
        Self::new()
    }
}

} // verus!
