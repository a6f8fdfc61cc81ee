//! The envelope that travels on the wire, and the decisions of the service
//! that owns one account and the sessions with all peers.
//!
//! The service works in memory. Each operation that changes a session or the
//! account hands back, together with its result, the sealed state that has
//! to be written to the vault before the result is released.

use vstd::prelude::*;
use vstd::slice::{slice_subrange, slice_to_vec};
use vstd::string::*;
use crate::bytes::{append_bytes, array32_from_slice, vec_from_array32};
use crate::encoding::{hex_encode, hex_encoding};
use crate::errors::{CryptoError, CryptoResult};
use crate::keys::{fingerprint, fingerprint_of};
use crate::olm::{lists_held_keys, listed_ids, listed_keys, no_keys};
use crate::lookup::{
    all_distinct, first_position, lemma_first_position_exists, lemma_first_position_is,
    lemma_push_new_is_distinct,
    lemma_remove_keeps_distinct, lemma_removed_is_gone,
};
use crate::ratchet::{
    decodes, following, message_wire, EncryptedMessage, OlmAccount, PickleKey,
    RatchetSession, SessionStats, MAX_SKIP,
};
use crate::pickle::stored_peer_key;
use crate::sessions::{derive_pickle_key, pickle_key_of, unsealed_text};

verus! {

/// Which protocol an envelope carries.
#[derive(Debug, Clone, Copy, PartialEq, Eq, Structural)]
pub enum EncryptionMode {
    /// Legacy P-256 ECDH, as web clients use it.
    Legacy,
    /// X3DH with the Double Ratchet.
    Signal,
}

/// An encrypted message with its protocol and, where the receiver may need
/// it to start a session, the sender's identity key.
#[derive(Debug, Clone)]
pub struct HybridEncryptedMessage {
    /// The protocol.
    pub mode: EncryptionMode,
    /// The encrypted data.
    pub ciphertext: Vec<u8>,
    /// The sender's identity key, for session establishment.
    pub sender_identity: Option<Vec<u8>>,
}

/// The version byte of a protocol.
pub open spec fn version_byte(mode: EncryptionMode) -> u8 {
    match mode {
        EncryptionMode::Legacy => 0,
        EncryptionMode::Signal => 1,
    }
}

/// The envelope: version byte, length of the sender's identity (zero if
/// absent), the identity, then the ciphertext.
pub open spec fn envelope_bytes(mode: EncryptionMode, sender_identity: Option<Seq<u8>>, ciphertext: Seq<u8>) -> Seq<u8> {
    match sender_identity {
        Some(identity) => seq![version_byte(mode), identity.len() as u8] + identity + ciphertext,
        None => seq![version_byte(mode), 0u8] + ciphertext,
    }
}

/// Whether bytes have the shape of an envelope: two header bytes, a known
/// version, and room for the identity that the header announces.
pub open spec fn is_envelope(bytes: Seq<u8>) -> bool {
    &&& bytes.len() >= 2
    &&& bytes[0] <= 1
    &&& bytes.len() >= 2 + bytes[1]
}

/// The protocol that an envelope names.
pub open spec fn envelope_mode(bytes: Seq<u8>) -> EncryptionMode {
    if bytes[0] == 0 {
        EncryptionMode::Legacy
    } else {
        EncryptionMode::Signal
    }
}

/// The sender's identity in an envelope; absent where the length byte is
/// zero.
pub open spec fn envelope_identity(bytes: Seq<u8>) -> Option<Seq<u8>> {
    if bytes[1] == 0 {
        None
    } else {
        Some(bytes.subrange(2, 2 + bytes[1]))
    }
}

/// The ciphertext in an envelope.
pub open spec fn envelope_ciphertext(bytes: Seq<u8>) -> Seq<u8> {
    bytes.subrange(2 + bytes[1], bytes.len() as int)
}

/// Whether an identity can be carried in an envelope and read back as it
/// was: the length field is one byte, and a length of zero stands for an
/// absent identity.
pub open spec fn identity_fits(sender_identity: Option<Seq<u8>>) -> bool {
    match sender_identity {
        Some(identity) => 1 <= identity.len() <= 255,
        None => true,
    }
}

/// Reading undoes writing: an envelope of a message whose identity fits has
/// the shape of an envelope, and names the protocol, identity and ciphertext
/// that went in.
pub proof fn lemma_envelope_round_trip(mode: EncryptionMode, sender_identity: Option<Seq<u8>>, ciphertext: Seq<u8>)
    requires
        identity_fits(sender_identity),
    ensures
        is_envelope(envelope_bytes(mode, sender_identity, ciphertext)),
        envelope_mode(envelope_bytes(mode, sender_identity, ciphertext)) == mode,
        envelope_identity(envelope_bytes(mode, sender_identity, ciphertext)) == sender_identity,
        envelope_ciphertext(envelope_bytes(mode, sender_identity, ciphertext)) == ciphertext,
{
    let bytes = envelope_bytes(mode, sender_identity, ciphertext);
    match sender_identity {
        Some(identity) => {
            assert(bytes[1] == identity.len());
            assert(bytes.subrange(2, 2 + bytes[1]) =~= identity);
            assert(bytes.subrange(2 + bytes[1], bytes.len() as int) =~= ciphertext);
        },
        None => {
            assert(bytes.subrange(2, bytes.len() as int) =~= ciphertext);
        },
    }
}

impl HybridEncryptedMessage {
    /// The sender's identity as a sequence, if there is one.
    pub open spec fn identity_view(&self) -> Option<Seq<u8>> {
        match self.sender_identity {
            Some(identity) => Some(identity@),
            None => None,
        }
    }

    /// A message of the Signal protocol.
    pub fn signal(ciphertext: Vec<u8>, sender_identity: Option<Vec<u8>>) -> (message: Self)
        ensures
            message.mode == EncryptionMode::Signal,
            message.ciphertext == ciphertext,
            message.sender_identity == sender_identity,
    {
        HybridEncryptedMessage { mode: EncryptionMode::Signal, ciphertext, sender_identity }
    }

    /// A message of the legacy protocol, which names no sender.
    pub fn legacy(ciphertext: Vec<u8>) -> (message: Self)
        ensures
            message.mode == EncryptionMode::Legacy,
            message.ciphertext == ciphertext,
            message.sender_identity is None,
    {
        HybridEncryptedMessage { mode: EncryptionMode::Legacy, ciphertext, sender_identity: None }
    }

    /// The envelope of this message. The identity's length must fit the
    /// one-byte length field.
    pub fn to_bytes(&self) -> (bytes: Vec<u8>)
        requires
            self.sender_identity is Some ==> self.sender_identity->0@.len() <= 255,
        ensures
            bytes@ == envelope_bytes(self.mode, self.identity_view(), self.ciphertext@),
    {
        let mut bytes: Vec<u8> = Vec::new();
        bytes.push(
            match self.mode {
                EncryptionMode::Legacy => 0,
                EncryptionMode::Signal => 1,
            },
        );
        match &self.sender_identity {
            Some(identity) => {
                bytes.push(identity.len() as u8);
                append_bytes(&mut bytes, identity.as_slice());
            },
            None => {
                bytes.push(0);
            },
        }
        append_bytes(&mut bytes, self.ciphertext.as_slice());
        assert(bytes@ =~= envelope_bytes(self.mode, self.identity_view(), self.ciphertext@));
        bytes
    }

    /// Reads an envelope. Fewer than two bytes, an unknown version, or an
    /// identity that runs past the end are decryption errors.
    pub fn from_bytes(bytes: &[u8]) -> (r: CryptoResult<Self>)
        ensures
            r is Ok <==> is_envelope(bytes@),
            r is Ok ==> {
                &&& r->Ok_0.mode == envelope_mode(bytes@)
                &&& r->Ok_0.identity_view() == envelope_identity(bytes@)
                &&& r->Ok_0.ciphertext@ == envelope_ciphertext(bytes@)
            },
            r is Err ==> r->Err_0 is DecryptionError,
    {
        if bytes.len() < 2 {
            return Err(CryptoError::DecryptionError(String::from_str("Message too short")));
        }
        let mode = if bytes[0] == 0 {
            EncryptionMode::Legacy
        } else if bytes[0] == 1 {
            EncryptionMode::Signal
        } else {
            return Err(CryptoError::DecryptionError(String::from_str("Unknown version")));
        };
        let identity_len: usize = bytes[1] as usize;
        if bytes.len() - 2 < identity_len {
            return Err(CryptoError::DecryptionError(String::from_str("Message truncated")));
        }
        let sender_identity = if identity_len > 0 {
            Some(slice_to_vec(slice_subrange(bytes, 2, 2 + identity_len)))
        } else {
            None
        };
        let ciphertext = slice_to_vec(slice_subrange(bytes, 2 + identity_len, bytes.len()));
        Ok(HybridEncryptedMessage { mode, ciphertext, sender_identity })
    }
}

/// The ids of a list of keys for upload.
pub open spec fn upload_ids(keys: Seq<(String, Vec<u8>)>) -> Seq<Seq<char>> {
    Seq::new(keys.len(), |i: int| keys[i].0@)
}

/// The public keys of a list of keys for upload.
pub open spec fn upload_keys(keys: Seq<(String, Vec<u8>)>) -> Seq<Seq<u8>> {
    Seq::new(keys.len(), |i: int| keys[i].1@)
}

/// The id of a session's peer: the lowercase hexadecimal form of its
/// identity key.
pub open spec fn peer_text(session: RatchetSession) -> Seq<char> {
    hex_encoding(session.peer_key_bytes())
}

/// The ids of the peers of a list of sessions.
pub open spec fn ids_of(sessions: Seq<RatchetSession>) -> Seq<Seq<char>> {
    Seq::new(sessions.len(), |i: int| peer_text(sessions[i]))
}

/// The id of the peer of a sealed session.
pub open spec fn stored_peer_id(key: Seq<u8>, text: Seq<char>) -> Seq<char> {
    hex_encoding(stored_peer_key(unsealed_text(key, text)->0))
}

/// Whether no sealed session after the `k`-th, before `upto`, is with the
/// peer of the `k`-th.
pub open spec fn last_for_peer(stored: Seq<String>, key: Seq<u8>, k: int, upto: int) -> bool {
    forall|m: int|
        k < m < upto ==> stored_peer_id(key, (#[trigger] stored[m])@) != stored_peer_id(
            key,
            stored[k]@,
        )
}

/// Whether a session is the `k`-th sealed session read back, and that one
/// is the last for its peer before `upto`.
pub open spec fn restores(session: RatchetSession, stored: Seq<String>, key: Seq<u8>, k: int, upto: int) -> bool {
    &&& 0 <= k < upto
    &&& last_for_peer(stored, key, k, upto)
    &&& session.holds_stored(unsealed_text(key, stored[k]@)->0)
}

/// Whether a session is one of the first `upto` sealed sessions read back,
/// the last of them for its peer.
pub open spec fn has_source(session: RatchetSession, stored: Seq<String>, key: Seq<u8>, upto: int) -> bool {
    exists|k: int| restores(session, stored, key, k, upto)
}

/// Whether a list of sessions is what the first `upto` sealed sessions
/// restore to: the peer of each sealed session has a session, and each
/// session has the peer, counts and marks of the last sealed session for its
/// peer.
pub open spec fn restored_from(sessions: Seq<RatchetSession>, stored: Seq<String>, key: Seq<u8>, upto: int) -> bool {
    &&& forall|k: int|
        0 <= k < upto ==> ids_of(sessions).contains(stored_peer_id(key, (#[trigger] stored[k])@))
    &&& forall|j: int|
        0 <= j < sessions.len() ==> has_source(#[trigger] sessions[j], stored, key, upto)
}

/// Putting the next sealed session, read back, in place of the session with
/// the same peer, or at the end where the peer has none, keeps the list
/// what the sealed sessions restore to.
pub proof fn lemma_restored_step(
    before: Seq<RatchetSession>,
    after: Seq<RatchetSession>,
    stored: Seq<String>,
    key: Seq<u8>,
    i: int,
    session: RatchetSession,
)
    requires
        0 <= i < stored.len(),
        restored_from(before, stored, key, i),
        all_distinct(ids_of(before)),
        session.holds_stored(unsealed_text(key, stored[i]@)->0),
        ids_of(before).contains(peer_text(session)) ==> after == before.update(
            first_position(ids_of(before), peer_text(session)),
            session,
        ),
        !ids_of(before).contains(peer_text(session)) ==> after == before.push(session),
    ensures
        restored_from(after, stored, key, i + 1),
{
    let p = peer_text(session);
    let ids = ids_of(before);
    assert(p == stored_peer_id(key, stored[i]@));
    let known = ids.contains(p);
    let at = if known {
        first_position(ids, p)
    } else {
        before.len() as int
    };
    if known {
        let w = choose|w: int| 0 <= w < ids.len() && ids[w] == p;
        lemma_first_position_exists(ids, p, w);
    }
    assert(0 <= at < after.len());
    assert(after[at] == session);
    assert forall|j: int| 0 <= j < after.len() && j != at implies after[j] == before[j] && 0 <= j
        < before.len() by {}
    assert forall|k: int| 0 <= k < i + 1 implies ids_of(after).contains(
        stored_peer_id(key, (#[trigger] stored[k])@),
    ) by {
        let q = stored_peer_id(key, stored[k]@);
        if k == i {
            assert(ids_of(after)[at] == q);
        } else {
            let j = choose|j: int| 0 <= j < ids.len() && ids[j] == q;
            if j == at {
                assert(ids_of(after)[at] == q);
            } else {
                assert(after[j] == before[j]);
                assert(ids_of(after)[j] == q);
            }
        }
    }
    assert forall|j: int| 0 <= j < after.len() implies has_source(
        #[trigger] after[j],
        stored,
        key,
        i + 1,
    ) by {
        if j == at {
            assert(restores(after[j], stored, key, i, i + 1));
        } else {
            assert(after[j] == before[j]);
            assert(has_source(before[j], stored, key, i));
            let k = choose|k: int| restores(before[j], stored, key, k, i);
            assert(peer_text(before[j]) == stored_peer_id(key, stored[k]@));
            assert(ids[j] == peer_text(before[j]));
            if stored_peer_id(key, stored[k]@) == p {
                if known {
                    assert(ids[j] == ids[at]);
                    assert(false);
                } else {
                    assert(ids.contains(ids[j]));
                    assert(false);
                }
            }
            assert(last_for_peer(stored, key, k, i + 1));
            assert(restores(after[j], stored, key, k, i + 1));
        }
    }
}

/// Number of one-time keys generated for a new account.
pub const INITIAL_ONE_TIME_KEYS: usize = 100;

/// Count of stored one-time prekeys below which more are needed.
pub const LOW_WATER_MARK: i64 = 25;

/// A session as it is written to the vault, under its peer's id.
#[derive(Debug)]
pub struct SessionWrite {
    /// The session's id.
    pub session_id: String,
    /// The peer's id: the lowercase hexadecimal form of its identity key.
    pub peer_id: String,
    /// The sealed session.
    pub session_data: String,
}

/// Whether a row is the one to write for a session under a sealing key: it
/// carries the peer's id and the session's id, and its data holds the
/// session sealed.
pub open spec fn writes_session(session: RatchetSession, write: SessionWrite, key: Seq<u8>) -> bool {
    &&& write.peer_id@ == hex_encoding(session.peer_key_bytes())
    &&& write.session_id@ == session.id_text()
    &&& session.sealed_in(write.session_data@, key)
}

/// What establishing an outbound session leaves to write: the account, then
/// the session.
#[derive(Debug)]
pub struct Established {
    /// The sealed account.
    pub account_data: String,
    /// The new session.
    pub session: SessionWrite,
}

/// An encrypted message with the session state that has to be durable
/// before the envelope is released.
#[derive(Debug)]
pub struct Encrypted {
    /// The envelope for the wire.
    pub envelope: Vec<u8>,
    /// The session after encryption.
    pub session: SessionWrite,
}

/// A decrypted message with the state that has to be durable before the
/// plaintext is released. Where a session was created the account has used
/// up a one-time key: it is written first.
#[derive(Debug)]
pub struct Decrypted {
    /// The plaintext.
    pub plaintext: Vec<u8>,
    /// The sealed account, where decrypting created the session.
    pub account_data: Option<String>,
    /// The session after decryption.
    pub session: SessionWrite,
}

/// One account and the sessions with all peers, in memory.
pub struct CryptoService {
    account: OlmAccount,
    sessions: Vec<RatchetSession>,
    pickle_key: PickleKey,
}

impl CryptoService {
    /// The account.
    pub closed spec fn account(&self) -> OlmAccount {
        self.account
    }

    /// The sessions, in the order in which they were established.
    pub closed spec fn sessions(&self) -> Seq<RatchetSession> {
        self.sessions@
    }

    /// The key under which state is sealed.
    pub closed spec fn sealing_key(&self) -> Seq<u8> {
        self.pickle_key@
    }

    /// Our Curve25519 identity key.
    pub open spec fn identity(&self) -> Seq<u8> {
        self.account().identity_bytes()
    }

    /// Whether every one of the stored sessions can be restored.
    pub open spec fn all_restorable(stored_sessions: Seq<String>, pickle_key: Seq<u8>) -> bool {
        forall|i: int|
            0 <= i < stored_sessions.len() ==> RatchetSession::restorable(
                (#[trigger] stored_sessions[i])@,
                pickle_key,
            )
    }

    /// The ids of the peers with a session.
    pub open spec fn peer_ids(&self) -> Seq<Seq<char>> {
        ids_of(self.sessions())
    }

    /// Whether this service, with what it hands back to be written, is what
    /// starting on a vault gives. A stored account is the account, with its
    /// keys; without one, a new account with no unpublished one-time keys
    /// is handed back sealed. The sessions are what the stored sessions
    /// restore to, each of which could be restored.
    pub open spec fn started_from(&self, to_write: Option<String>, key: Seq<u8>, stored_account: Option<Seq<char>>, stored_sessions: Seq<String>) -> bool {
        &&& self.wf()
        &&& self.sealing_key() == key
        &&& match stored_account {
            Some(text) => to_write is None && self.account().sealed_in(text, key),
            None => {
                &&& to_write is Some
                &&& self.account().sealed_in(to_write->0@, key)
                &&& self.account().unpublished() == no_keys()
                &&& self.account().stored_keys() == INITIAL_ONE_TIME_KEYS
            },
        }
        &&& Self::all_restorable(stored_sessions, key)
        &&& restored_from(self.sessions(), stored_sessions, key, stored_sessions.len() as int)
        &&& self.sessions().len() <= stored_sessions.len()
    }

    /// Whether there is a session with the peer.
    pub open spec fn knows_peer(&self, peer_id: Seq<char>) -> bool {
        self.peer_ids().contains(peer_id)
    }

    /// Where the session with the peer stands.
    pub open spec fn position_of(&self, peer_id: Seq<char>) -> int {
        first_position(self.peer_ids(), peer_id)
    }

    /// No peer has two sessions.
    pub open spec fn wf(&self) -> bool {
        all_distinct(self.peer_ids())
    }

    /// Account, sessions and sealing key are those of `before`.
    pub open spec fn same_as(&self, before: Self) -> bool {
        &&& self.account() == before.account()
        &&& self.sessions() == before.sessions()
        &&& self.sealing_key() == before.sealing_key()
    }

    /// Sessions other than the one at `at` are those of `before`, as are the
    /// account and the sealing key.
    pub open spec fn same_except(&self, before: Self, at: int) -> bool {
        &&& self.account() == before.account()
        &&& self.sealing_key() == before.sealing_key()
        &&& self.sessions().len() == before.sessions().len()
        &&& forall|j: int|
            0 <= j < self.sessions().len() && j != at ==> self.sessions()[j] == before.sessions()[j]
        &&& self.sessions()[at].peer_key_bytes() == before.sessions()[at].peer_key_bytes()
    }

    /// The session at `at` was dropped; everything else is as in `before`.
    pub open spec fn dropped(&self, before: Self, at: int) -> bool {
        &&& self.account() == before.account()
        &&& self.sealing_key() == before.sealing_key()
        &&& self.sessions() == before.sessions().remove(at)
    }

    /// A service around an account, with no session.
    pub fn with_account(account: OlmAccount, pickle_key: PickleKey) -> (service: Self)
        ensures
            service.account() == account,
            service.sessions() == Seq::<RatchetSession>::empty(),
            service.sealing_key() == pickle_key@,
            service.wf(),
    {
        CryptoService { account, sessions: Vec::new(), pickle_key }
    }

    /// Starts the service from what the vault holds.
    ///
    /// With a stored account the account is restored; without one a new
    /// account is made, with its first one-time keys marked as published,
    /// and handed back sealed, to be written. Every stored session is
    /// restored; of two for one peer the later stays. A stored blob that does
    /// not open or read back fails the start with the error of its kind.
    pub fn initialize(pickle_key: PickleKey, stored_account: Option<&str>, stored_sessions: &Vec<String>) -> (r: CryptoResult<(Self, Option<String>)>)
        ensures
            r is Ok ==> r->Ok_0.0.started_from(
                r->Ok_0.1,
                pickle_key@,
                match stored_account {
                    Some(text) => Some(text@),
                    None => None,
                },
                stored_sessions@,
            ),
            stored_account is Some ==> (r is Ok <==> OlmAccount::restorable(
                stored_account->0@,
                pickle_key@,
            ) && Self::all_restorable(stored_sessions@, pickle_key@)),
            stored_account is None && !Self::all_restorable(stored_sessions@, pickle_key@) ==> r
                is Err,
            r is Err ==> r->Err_0 is SerializationError || r->Err_0 is VaultError || r->Err_0
                is SessionCorrupted || r->Err_0 is EncryptionError || r->Err_0 is InternalError,
            r is Err && stored_account is Some ==> r->Err_0 is SerializationError || r->Err_0
                is VaultError || r->Err_0 is SessionCorrupted,
    {
        let mut to_write: Option<String> = None;
        let account = match stored_account {
            Some(text) => match OlmAccount::from_pickle(text, &pickle_key) {
                Ok(a) => a,
                Err(e) => {
                    return Err(e);
                },
            },
            None => {
                let mut fresh = OlmAccount::new();
                fresh.generate_one_time_keys(INITIAL_ONE_TIME_KEYS);
                fresh.mark_keys_as_published();
                match fresh.pickle(&pickle_key) {
                    Ok(sealed) => {
                        to_write = Some(sealed);
                    },
                    Err(e) => {
                        return Err(e);
                    },
                }
                fresh
            },
        };
        let mut service = Self::with_account(account, pickle_key);
        let mut i: usize = 0;
        while i < stored_sessions.len()
            invariant
                i <= stored_sessions@.len(),
                service.account() == account,
                service.wf(),
                restored_from(service.sessions(), stored_sessions@, pickle_key@, i as int),
                service.sealing_key() == pickle_key@,
                service.sessions().len() <= i,
                forall|k: int|
                    0 <= k < i ==> RatchetSession::restorable(
                        (#[trigger] stored_sessions@[k])@,
                        pickle_key@,
                    ),
            decreases stored_sessions@.len() - i,
        {
            let session = match RatchetSession::unpickle(stored_sessions[i].as_str(), &pickle_key) {
                Ok(s) => s,
                Err(e) => {
                    return Err(e);
                },
            };
            let ghost before = service.sessions();
            service.put_session(session);
            proof {
                lemma_restored_step(
                    before,
                    service.sessions(),
                    stored_sessions@,
                    pickle_key@,
                    i as int,
                    session,
                );
            }
            i += 1;
        }
        Ok((service, to_write))
    }

    /// Starts the service with the pickle key derived from a device secret.
    pub fn initialize_with_key(secret: &[u8], salt: &[u8], stored_account: Option<&str>, stored_sessions: &Vec<String>) -> (r: CryptoResult<(Self, Option<String>)>)
        ensures
            r is Ok ==> r->Ok_0.0.started_from(
                r->Ok_0.1,
                pickle_key_of(secret@, salt@),
                match stored_account {
                    Some(text) => Some(text@),
                    None => None,
                },
                stored_sessions@,
            ),
            stored_account is Some ==> (r is Ok <==> OlmAccount::restorable(
                stored_account->0@,
                pickle_key_of(secret@, salt@),
            ) && Self::all_restorable(stored_sessions@, pickle_key_of(secret@, salt@))),
            stored_account is None && !Self::all_restorable(
                stored_sessions@,
                pickle_key_of(secret@, salt@),
            ) ==> r is Err,
            r is Err ==> r->Err_0 is SerializationError || r->Err_0 is VaultError || r->Err_0
                is SessionCorrupted || r->Err_0 is EncryptionError || r->Err_0 is InternalError,
            r is Err && stored_account is Some ==> r->Err_0 is SerializationError || r->Err_0
                is VaultError || r->Err_0 is SessionCorrupted,
    {
        let pickle_key = derive_pickle_key(secret, salt);
        Self::initialize(pickle_key, stored_account, stored_sessions)
    }

    /// Takes a stored session into memory, in place of any session with the
    /// same peer, and names the peer. A blob that does not open or read back
    /// fails with the error of its kind and changes nothing.
    #[verifier::rlimit(60)]
    pub fn load_session(&mut self, stored: &str) -> (r: CryptoResult<String>)
        ensures
            r is Ok ==> {
                &&& final(self).knows_peer(r->Ok_0@)
                &&& final(self).account() == old(self).account()
                &&& final(self).sealing_key() == old(self).sealing_key()
                &&& final(self).sessions().len() <= old(self).sessions().len() + 1
            },
            r is Ok <==> RatchetSession::restorable(stored@, old(self).sealing_key()),
            r is Ok ==> r->Ok_0@ == stored_peer_id(old(self).sealing_key(), stored@),
            r is Ok ==> final(self).sessions()[final(self).position_of(r->Ok_0@)].holds_stored(
                unsealed_text(old(self).sealing_key(), stored@)->0,
            ),
            r is Ok ==> forall|j: int|
                0 <= j < old(self).sessions().len() && peer_text(#[trigger] old(self).sessions()[j])
                    != r->Ok_0@ ==> final(self).sessions()[j] == old(self).sessions()[j],
            r is Err ==> final(self).same_as(*old(self)),
            r is Err ==> r->Err_0 is SerializationError || r->Err_0 is VaultError || r->Err_0
                is SessionCorrupted,
            old(self).wf() ==> final(self).wf(),
    {
        let session = match RatchetSession::unpickle(stored, &self.pickle_key) {
            Ok(s) => s,
            Err(e) => {
                return Err(e);
            },
        };
        let peer_id = session.peer_id();
        let ghost before = self.sessions();
        self.put_session(session);
        proof {
            let ids = ids_of(before);
            if ids.contains(peer_id@) {
                let w = choose|w: int| 0 <= w < ids.len() && ids[w] == peer_id@;
                lemma_first_position_exists(ids, peer_id@, w);
                let at = first_position(ids, peer_id@);
                assert forall|j: int|
                    0 <= j < before.len() && peer_text(#[trigger] before[j]) != peer_id@ implies self.sessions()[j]
                        == before[j] by {
                    assert(ids[j] == peer_text(before[j]));
                    assert(j != at);
                }
            }
        }
        Ok(peer_id)
    }

    /// Where the session with the peer stands, if there is one.
    fn find_session(&self, peer_id: &str) -> (at: Option<usize>)
        ensures
            at is Some <==> self.knows_peer(peer_id@),
            at is Some ==> at->0 == self.position_of(peer_id@) && at->0 < self.sessions().len()
                && hex_encoding(self.sessions()[at->0 as int].peer_key_bytes()) == peer_id@,
    {
        let wanted = String::from_str(peer_id);
        let mut i: usize = 0;
        while i < self.sessions.len()
            invariant
                i <= self.sessions@.len(),
                wanted@ == peer_id@,
                forall|j: int| 0 <= j < i ==> self.peer_ids()[j] != peer_id@,
            decreases self.sessions@.len() - i,
        {
            let id = self.sessions[i].peer_id();
            if id == wanted {
                proof {
                    assert(self.peer_ids()[i as int] == peer_id@);
                    lemma_first_position_is(self.peer_ids(), peer_id@, i as int);
                }
                return Some(i);
            }
            i += 1;
        }
        None
    }

    /// Puts a session in place of the one with the same peer, or at the end
    /// where the peer has none.
    #[verifier::rlimit(60)]
    fn put_session(&mut self, session: RatchetSession)
        ensures
            final(self).account() == old(self).account(),
            final(self).sealing_key() == old(self).sealing_key(),
            final(self).knows_peer(hex_encoding(session.peer_key_bytes())),
            old(self).knows_peer(hex_encoding(session.peer_key_bytes())) ==> final(self).sessions()
                == old(self).sessions().update(
                old(self).position_of(hex_encoding(session.peer_key_bytes())),
                session,
            ),
            !old(self).knows_peer(hex_encoding(session.peer_key_bytes())) ==> final(self).sessions()
                == old(self).sessions().push(session),
            final(self).sessions().len() <= old(self).sessions().len() + 1,
            0 <= final(self).position_of(hex_encoding(session.peer_key_bytes())) < final(self).sessions().len(),
            final(self).sessions()[final(self).position_of(hex_encoding(session.peer_key_bytes()))]
                == session,
            old(self).wf() ==> final(self).wf(),
    {
        let id = session.peer_id();
        let ghost before = self.peer_ids();
        match self.find_session(id.as_str()) {
            Some(at) => {
                let _ = self.sessions.remove(at);
                self.sessions.insert(at, session);
                proof {
                    assert(self.sessions@ =~= old(self).sessions().update(at as int, session));
                    assert(self.peer_ids() =~= before);
                }
            },
            None => {
                self.sessions.push(session);
                proof {
                    assert(self.peer_ids() =~= before.push(id@));
                    if old(self).wf() {
                        lemma_push_new_is_distinct(before, id@);
                    }
                    assert(self.peer_ids()[before.len() as int] == id@);
                    assert forall|j: int| 0 <= j < before.len() implies self.peer_ids()[j] != id@ by {
                        assert(before.contains(before[j]));
                    }
                    lemma_first_position_is(self.peer_ids(), id@, before.len() as int);
                }
            },
        }
    }

    /// The session as it is to be written: under its peer's id and its own
    /// id, sealed under the pickle key.
    fn session_write(session: &RatchetSession, pickle_key: &PickleKey) -> (r: CryptoResult<SessionWrite>)
        ensures
            r is Ok ==> writes_session(*session, r->Ok_0, pickle_key@),
            r is Err ==> r->Err_0 is SerializationError || r->Err_0 is EncryptionError || r->Err_0
                is InternalError,
    {
        match session.pickle(pickle_key) {
            Ok(session_data) => Ok(
                SessionWrite {
                    session_id: session.session_id(),
                    peer_id: session.peer_id(),
                    session_data,
                },
            ),
            Err(e) => Err(e),
        }
    }

    /// Our Curve25519 identity key, for sharing with peers.
    pub fn identity_key(&self) -> (key: Vec<u8>)
        ensures
            key@ == self.identity(),
            key@.len() == 32,
    {
        vec_from_array32(&self.account.identity_key())
    }

    /// Our Ed25519 signing key.
    pub fn signing_key(&self) -> (key: Vec<u8>)
        ensures
            key@ == self.account().signing_bytes(),
            key@.len() == 32,
    {
        vec_from_array32(&self.account.signing_key())
    }

    /// The one-time keys that are yet to be uploaded, each with its id, in
    /// no particular order: every key that the account holds unpublished,
    /// once.
    pub fn get_one_time_keys(&self) -> (keys: Vec<(String, Vec<u8>)>)
        ensures
            lists_held_keys(upload_ids(keys@), upload_keys(keys@), self.account().unpublished()),
            forall|i: int| 0 <= i < keys@.len() ==> (#[trigger] keys@[i]).1@.len() == 32,
    {
        let found = self.account.one_time_keys();
        let mut keys: Vec<(String, Vec<u8>)> = Vec::new();
        let mut i: usize = 0;
        while i < found.len()
            invariant
                i <= found@.len(),
                keys@.len() == i,
                forall|k: int|
                    0 <= k < i ==> {
                        &&& (#[trigger] keys@[k]).0@ == found@[k].0@
                        &&& keys@[k].1@ == found@[k].1@
                        &&& keys@[k].1@.len() == 32
                    },
            decreases found@.len() - i,
        {
            keys.push((found[i].0.clone(), vec_from_array32(&found[i].1)));
            i += 1;
        }
        assert(upload_ids(keys@) =~= listed_ids(found@));
        assert(upload_keys(keys@) =~= listed_keys(found@));
        keys
    }

    /// Generates one-time keys and hands back those to upload, with the
    /// sealed account to write. Sessions are untouched.
    pub fn generate_one_time_keys(&mut self, count: usize) -> (r: CryptoResult<(Vec<(String, Vec<u8>)>, String)>)
        ensures
            OlmAccount::grown_by(
                old(self).account().unpublished(),
                final(self).account().unpublished(),
                count as nat,
                OlmAccount::has_room(old(self).account().stored_keys(), count as nat),
            ),
            final(self).account().stored_keys() <= old(self).account().stored_keys() + count,
            OlmAccount::has_room(old(self).account().stored_keys(), count as nat) ==> final(self).account().stored_keys() >= count,
            r is Ok ==> lists_held_keys(
                upload_ids(r->Ok_0.0@),
                upload_keys(r->Ok_0.0@),
                final(self).account().unpublished(),
            ),
            final(self).sessions() == old(self).sessions(),
            final(self).sealing_key() == old(self).sealing_key(),
            final(self).identity() == old(self).identity(),
            r is Ok ==> final(self).account().sealed_in(r->Ok_0.1@, old(self).sealing_key()),
            r is Err ==> r->Err_0 is SerializationError || r->Err_0 is EncryptionError || r->Err_0
                is InternalError,
    {
        self.account.generate_one_time_keys(count);
        let keys = self.get_one_time_keys();
        match self.account.pickle(&self.pickle_key) {
            Ok(sealed) => Ok((keys, sealed)),
            Err(e) => Err(e),
        }
    }

    /// Marks the one-time keys as published and hands back the sealed
    /// account to write. Sessions are untouched.
    pub fn mark_keys_as_published(&mut self) -> (r: CryptoResult<String>)
        ensures
            final(self).account().unpublished() == no_keys(),
            final(self).account().stored_keys() == old(self).account().stored_keys(),
            final(self).sessions() == old(self).sessions(),
            final(self).sealing_key() == old(self).sealing_key(),
            final(self).identity() == old(self).identity(),
            r is Ok ==> final(self).account().sealed_in(r->Ok_0@, old(self).sealing_key()),
            r is Err ==> r->Err_0 is SerializationError || r->Err_0 is EncryptionError || r->Err_0
                is InternalError,
    {
        self.account.mark_keys_as_published();
        self.account.pickle(&self.pickle_key)
    }

    /// The number of one-time keys, published or not, that the account
    /// holds.
    pub fn stored_one_time_key_count(&self) -> (count: usize)
        ensures
            count == self.account().stored_keys(),
    {
        self.account.stored_one_time_key_count()
    }

    /// Whether there is a session with the peer.
    pub fn has_session(&self, peer_id: &str) -> (known: bool)
        ensures
            known == self.knows_peer(peer_id@),
    {
        self.find_session(peer_id).is_some()
    }

    /// Starts a session with a peer, in place of any earlier one.
    ///
    /// Both keys must be 32 bytes, and the peer's id must be the lowercase
    /// hexadecimal form of its identity key; otherwise the key is invalid
    /// and nothing changes. What has to be written is handed back: the
    /// account, then the session. If sealing fails nothing has changed.
    pub fn establish_outbound_session(&mut self, peer_id: &str, their_identity_key: &[u8], their_one_time_key: &[u8]) -> (r: CryptoResult<Established>)
        ensures
            their_identity_key@.len() != 32 || their_one_time_key@.len() != 32 || hex_encoding(
                their_identity_key@,
            ) != peer_id@ ==> r is Err && r->Err_0 is InvalidKey,
            r is Err ==> final(self).same_as(*old(self)),
            r is Err ==> r->Err_0 is InvalidKey || r->Err_0 is SerializationError || r->Err_0
                is EncryptionError || r->Err_0 is InternalError,
            r is Err ==> (r->Err_0 is InvalidKey <==> their_identity_key@.len() != 32
                || their_one_time_key@.len() != 32 || hex_encoding(their_identity_key@) != peer_id@),
            r is Ok ==> {
                &&& final(self).knows_peer(peer_id@)
                &&& writes_session(
                    final(self).sessions()[final(self).position_of(peer_id@)],
                    r->Ok_0.session,
                    old(self).sealing_key(),
                )
                &&& final(self).sessions()[final(self).position_of(peer_id@)].sent() == 0
                &&& final(self).sessions()[final(self).position_of(peer_id@)].received() == 0
                &&& final(self).account().sealed_in(r->Ok_0.account_data@, old(self).sealing_key())
                &&& final(self).account() == old(self).account()
                &&& final(self).sealing_key() == old(self).sealing_key()
                &&& final(self).sessions().len() <= old(self).sessions().len() + 1
                &&& (old(self).wf() ==> final(self).wf())
            },
    {
        let identity = match array32_from_slice(their_identity_key) {
            Some(k) => k,
            None => {
                return Err(CryptoError::InvalidKey(String::from_str("Identity key must be 32 bytes")));
            },
        };
        let one_time = match array32_from_slice(their_one_time_key) {
            Some(k) => k,
            None => {
                return Err(CryptoError::InvalidKey(String::from_str("One-time key must be 32 bytes")));
            },
        };
        if hex_encode(their_identity_key) != String::from_str(peer_id) {
            return Err(
                CryptoError::InvalidKey(String::from_str("Peer id does not name the identity key")),
            );
        }
        let session = match self.account.create_outbound_session(identity, one_time) {
            Ok(s) => s,
            Err(e) => {
                return Err(e);
            },
        };
        let account_data = match self.account.pickle(&self.pickle_key) {
            Ok(a) => a,
            Err(e) => {
                return Err(e);
            },
        };
        let write = match Self::session_write(&session, &self.pickle_key) {
            Ok(w) => w,
            Err(e) => {
                return Err(e);
            },
        };
        self.put_session(session);
        Ok(Established { account_data, session: write })
    }

    /// Answers a peer's first message: creates the session, in place of any
    /// earlier one, and decrypts the message.
    ///
    /// The identity key must be 32 bytes and the peer's id its lowercase
    /// hexadecimal form, or the key is invalid. The envelope must be one of
    /// the Signal protocol around a message, or decryption fails. A message
    /// that is no pre-key message is a handshake error; one from which the
    /// account makes no session is a decryption error. None of these
    /// changes anything. The account is to be written first, then the
    /// session.
    #[verifier::rlimit(60)]
    pub fn establish_inbound_session(&mut self, peer_id: &str, their_identity_key: &[u8], ciphertext: &[u8]) -> (r: CryptoResult<Decrypted>)
        ensures
            !names_peer(peer_id@, their_identity_key@) ==> r is Err && r->Err_0 is InvalidKey,
            names_peer(peer_id@, their_identity_key@) && !readable(ciphertext@) ==> r is Err
                && r->Err_0 is DecryptionError,
            r is Err ==> (r->Err_0 is InvalidKey <==> !names_peer(peer_id@, their_identity_key@)),
            r is Err ==> r->Err_0 is InvalidKey || r->Err_0 is DecryptionError || r->Err_0
                is X3dhError || r->Err_0 is SerializationError || r->Err_0 is EncryptionError
                || r->Err_0 is InternalError,
            r is Err && (r->Err_0 is InvalidKey || r->Err_0 is DecryptionError || r->Err_0
                is X3dhError) ==> final(self).same_as(*old(self)),
            r is Err ==> final(self).sessions() == old(self).sessions(),
            final(self).sealing_key() == old(self).sealing_key(),
            final(self).identity() == old(self).identity(),
            r is Ok ==> {
                let at = final(self).position_of(peer_id@);
                &&& final(self).knows_peer(peer_id@)
                &&& writes_session(final(self).sessions()[at], r->Ok_0.session, old(self).sealing_key())
                &&& final(self).sessions()[at].sent() == 0
                &&& final(self).sessions()[at].received() == 0
                &&& r->Ok_0.session.peer_id@ == peer_id@
                &&& r->Ok_0.account_data is Some
                &&& final(self).account().sealed_in(
                    r->Ok_0.account_data->0@,
                    old(self).sealing_key(),
                )
                &&& final(self).sessions().len() <= old(self).sessions().len() + 1
            },
            old(self).wf() ==> final(self).wf(),
    {
        let identity = match array32_from_slice(their_identity_key) {
            Some(k) => k,
            None => {
                return Err(CryptoError::InvalidKey(String::from_str("Identity key must be 32 bytes")));
            },
        };
        if hex_encode(their_identity_key) != String::from_str(peer_id) {
            return Err(
                CryptoError::InvalidKey(String::from_str("Peer id does not name the identity key")),
            );
        }
        let message = match Self::read_envelope(ciphertext) {
            Ok(m) => m.1,
            Err(e) => {
                return Err(e);
            },
        };
        let created = match self.account.create_inbound_session(identity, &message) {
            Ok(c) => c,
            Err(e) => {
                return Err(e);
            },
        };
        let account_data = match self.account.pickle(&self.pickle_key) {
            Ok(a) => a,
            Err(e) => {
                return Err(e);
            },
        };
        let write = match Self::session_write(&created.0, &self.pickle_key) {
            Ok(w) => w,
            Err(e) => {
                return Err(e);
            },
        };
        self.put_session(created.0);
        Ok(Decrypted { plaintext: created.1, account_data: Some(account_data), session: write })
    }

    /// Reads an envelope of the Signal protocol and the message in it.
    fn read_envelope(ciphertext: &[u8]) -> (r: CryptoResult<(Option<Vec<u8>>, EncryptedMessage)>)
        ensures
            r is Ok <==> readable(ciphertext@),
            r is Ok ==> {
                &&& crate::ratchet::message_parts(envelope_ciphertext(ciphertext@)) == Some(
                    (r->Ok_0.1.message_type, r->Ok_0.1.ciphertext@),
                )
                &&& match r->Ok_0.0 {
                    Some(identity) => envelope_identity(ciphertext@) == Some(identity@),
                    None => envelope_identity(ciphertext@) is None,
                }
            },
            r is Err ==> r->Err_0 is DecryptionError,
    {
        let envelope = match HybridEncryptedMessage::from_bytes(ciphertext) {
            Ok(e) => e,
            Err(e) => {
                return Err(e);
            },
        };
        match envelope.mode {
            EncryptionMode::Legacy => {
                return Err(CryptoError::DecryptionError(String::from_str("Version mismatch")));
            },
            EncryptionMode::Signal => {},
        }
        match EncryptedMessage::from_bytes(envelope.ciphertext.as_slice()) {
            Ok(message) => Ok((envelope.sender_identity, message)),
            Err(e) => Err(e),
        }
    }

    /// Encrypts a message for a peer.
    ///
    /// Without a session with the peer nothing happens and the session is
    /// reported as not found. Otherwise the session's ratchet moves on and
    /// the envelope comes back with the session to write: an envelope of the
    /// Signal protocol around a message of type 0 or 1, with our identity
    /// key in it where the type is 0. If the session cannot be sealed it is
    /// dropped from memory, so that its next use starts from what the vault
    /// holds.
    #[verifier::rlimit(60)]
    pub fn encrypt(&mut self, peer_id: &str, plaintext: &[u8]) -> (r: CryptoResult<Encrypted>)
        ensures
            !old(self).knows_peer(peer_id@) ==> r is Err && r->Err_0 is SessionNotFound && final(self).same_as(*old(self)),
            r is Err ==> (r->Err_0 is SessionNotFound <==> !old(self).knows_peer(peer_id@)),
            r is Err && old(self).knows_peer(peer_id@) ==> final(self).dropped(
                *old(self),
                old(self).position_of(peer_id@),
            ),
            r is Ok ==> {
                let at = old(self).position_of(peer_id@);
                &&& final(self).same_except(*old(self), at)
                &&& final(self).sessions()[at].sent() == following(old(self).sessions()[at].sent())
                &&& final(self).sessions()[at].received() == old(self).sessions()[at].received()
                &&& final(self).sessions()[at].marks() == old(self).sessions()[at].marks()
                &&& writes_session(final(self).sessions()[at], r->Ok_0.session, old(self).sealing_key())
                &&& r->Ok_0.session.peer_id@ == peer_id@
                &&& is_envelope(r->Ok_0.envelope@)
                &&& envelope_mode(r->Ok_0.envelope@) == EncryptionMode::Signal
                &&& exists|message_type: u8, encoded: Seq<u8>|
                    {
                        &&& message_type <= 1
                        &&& envelope_ciphertext(r->Ok_0.envelope@) == #[trigger] message_wire(
                            message_type,
                            encoded,
                        )
                        &&& envelope_identity(r->Ok_0.envelope@) == if message_type == 0 {
                            Some(old(self).identity())
                        } else {
                            None
                        }
                    }
            },
            old(self).wf() ==> final(self).wf(),
    {
        let at = match self.find_session(peer_id) {
            Some(i) => i,
            None => {
                return Err(CryptoError::SessionNotFound(String::from_str(peer_id)));
            },
        };
        let ghost ids = self.peer_ids();
        let mut session = self.sessions.remove(at);
        proof {
            assert(self.peer_ids() =~= ids.remove(at as int));
            if old(self).wf() {
                lemma_remove_keeps_distinct(ids, at as int);
            }
        }
        let message = session.encrypt(plaintext);
        let inner = message.to_bytes();
        let sender_identity = if message.message_type == 0 {
            Some(self.identity_key())
        } else {
            None
        };
        let envelope = HybridEncryptedMessage::signal(inner, sender_identity);
        let bytes = envelope.to_bytes();
        proof {
            lemma_envelope_round_trip(envelope.mode, envelope.identity_view(), envelope.ciphertext@);
        }
        match Self::session_write(&session, &self.pickle_key) {
            Ok(write) => {
                self.sessions.insert(at, session);
                proof {
                    assert(self.peer_ids() =~= ids);
                    assert(envelope_ciphertext(bytes@) == message_wire(
                        message.message_type,
                        message.ciphertext@,
                    ));
                }
                Ok(Encrypted { envelope: bytes, session: write })
            },
            Err(e) => Err(e),
        }
    }

    /// Decrypts a message from a peer.
    ///
    /// Without a session with the peer the sender's identity key is
    /// required: without it the session is reported as not found, whatever
    /// the bytes are, and with it the message has to start a session as in
    /// `establish_inbound_session`. With a session, the envelope must be one
    /// of the Signal protocol around a message, and the session decrypts: a
    /// failure of either is a decryption error. A decryption error changes
    /// nothing.
    #[verifier::rlimit(60)]
    pub fn decrypt(&mut self, peer_id: &str, their_identity_key: Option<&[u8]>, ciphertext: &[u8]) -> (r: CryptoResult<Decrypted>)
        ensures
            !old(self).knows_peer(peer_id@) && their_identity_key is None ==> r is Err && r->Err_0
                is SessionNotFound && final(self).same_as(*old(self)),
            r is Err ==> (r->Err_0 is SessionNotFound <==> !old(self).knows_peer(peer_id@)
                && their_identity_key is None),
            r is Err ==> (r->Err_0 is InvalidKey <==> !old(self).knows_peer(peer_id@)
                && their_identity_key is Some && !names_peer(peer_id@, their_identity_key->0@)),
            !old(self).knows_peer(peer_id@) && their_identity_key is Some && !names_peer(
                peer_id@,
                their_identity_key->0@,
            ) ==> r is Err,
            (old(self).knows_peer(peer_id@) || (their_identity_key is Some && names_peer(
                peer_id@,
                their_identity_key->0@,
            ))) && !readable(ciphertext@) ==> r is Err && r->Err_0 is DecryptionError,
            readable(ciphertext@) && old(self).knows_peer(peer_id@) && !admitted_by(
                old(self).sessions()[old(self).position_of(peer_id@)],
                inner_message(ciphertext@),
            ) ==> r is Err && r->Err_0 is DecryptionError,
            r is Err && (r->Err_0 is DecryptionError || r->Err_0 is InvalidKey || r->Err_0
                is X3dhError) ==> final(self).same_as(*old(self)),
            r is Err && old(self).knows_peer(peer_id@) ==> final(self).same_as(*old(self)) || final(self).dropped(*old(self), old(self).position_of(peer_id@)),
            r is Err && !old(self).knows_peer(peer_id@) ==> final(self).sessions() == old(self).sessions(),
            r is Ok && old(self).knows_peer(peer_id@) ==> {
                let at = old(self).position_of(peer_id@);
                &&& final(self).same_except(*old(self), at)
                &&& final(self).sessions()[at].received() == following(
                    old(self).sessions()[at].received(),
                )
                &&& final(self).sessions()[at].sent() == old(self).sessions()[at].sent()
                &&& writes_session(final(self).sessions()[at], r->Ok_0.session, old(self).sealing_key())
                &&& r->Ok_0.account_data is None
            },
            r is Ok && !old(self).knows_peer(peer_id@) ==> {
                let at = final(self).position_of(peer_id@);
                &&& final(self).knows_peer(peer_id@)
                &&& writes_session(final(self).sessions()[at], r->Ok_0.session, old(self).sealing_key())
                &&& r->Ok_0.account_data is Some
                &&& final(self).account().sealed_in(
                    r->Ok_0.account_data->0@,
                    old(self).sealing_key(),
                )
            },
            r is Ok ==> r->Ok_0.session.peer_id@ == peer_id@,
            final(self).sealing_key() == old(self).sealing_key(),
            final(self).identity() == old(self).identity(),
            old(self).wf() ==> final(self).wf(),
    {
        match self.find_session(peer_id) {
            Some(at) => {
                let message = match Self::read_envelope(ciphertext) {
                    Ok(m) => m.1,
                    Err(e) => {
                        return Err(e);
                    },
                };
                self.decrypt_at(at, &message)
            },
            None => match their_identity_key {
                Some(key) => self.establish_inbound_session(peer_id, key, ciphertext),
                None => Err(
                    CryptoError::SessionNotFound(
                        String::from_str("No session and no identity key provided"),
                    ),
                ),
            },
        }
    }

    /// Decrypts a message with the session that stands at `at`. A message
    /// that the session refuses changes nothing; a session that cannot be
    /// sealed after decrypting is dropped from memory.
    #[verifier::rlimit(60)]
    fn decrypt_at(&mut self, at: usize, message: &EncryptedMessage) -> (r: CryptoResult<Decrypted>)
        requires
            at < old(self).sessions().len(),
        ensures
            !admitted_by(old(self).sessions()[at as int], (message.message_type, message.ciphertext@))
                ==> r is Err && r->Err_0 is DecryptionError,
            r is Err && r->Err_0 is DecryptionError ==> final(self).same_as(*old(self)),
            r is Err ==> final(self).same_as(*old(self)) || final(self).dropped(
                *old(self),
                at as int,
            ),
            r is Ok ==> {
                &&& final(self).same_except(*old(self), at as int)
                &&& final(self).sessions()[at as int].received() == following(
                    old(self).sessions()[at as int].received(),
                )
                &&& final(self).sessions()[at as int].sent() == old(self).sessions()[at as int].sent()
                &&& r->Ok_0.account_data is None
                &&& r->Ok_0.session.peer_id@ == old(self).peer_ids()[at as int]
                &&& writes_session(
                    final(self).sessions()[at as int],
                    r->Ok_0.session,
                    old(self).sealing_key(),
                )
            },
            final(self).account() == old(self).account(),
            r is Err ==> r->Err_0 is DecryptionError || r->Err_0 is SerializationError || r->Err_0
                is EncryptionError || r->Err_0 is InternalError,
            final(self).sealing_key() == old(self).sealing_key(),
            old(self).wf() ==> final(self).wf(),
    {
        let ghost ids = self.peer_ids();
        let ghost before = self.sessions@;
        let mut session = self.sessions.remove(at);
        proof {
            assert(self.peer_ids() =~= ids.remove(at as int));
            if old(self).wf() {
                lemma_remove_keeps_distinct(ids, at as int);
            }
        }
        match session.decrypt(message) {
            Ok(plaintext) => match Self::session_write(&session, &self.pickle_key) {
                Ok(write) => {
                    self.sessions.insert(at, session);
                    proof {
                        assert(self.peer_ids() =~= ids);
                    }
                    Ok(Decrypted { plaintext, account_data: None, session: write })
                },
                Err(e) => Err(e),
            },
            Err(e) => {
                self.sessions.insert(at, session);
                proof {
                    assert(self.sessions@ =~= before);
                }
                Err(e)
            },
        }
    }

    /// Forgets the session with a peer, if there is one. Other sessions and
    /// the account are untouched.
    pub fn delete_session(&mut self, peer_id: &str) -> (removed: bool)
        ensures
            removed == old(self).knows_peer(peer_id@),
            removed ==> final(self).dropped(*old(self), old(self).position_of(peer_id@)),
            !removed ==> final(self).same_as(*old(self)),
            old(self).wf() ==> final(self).wf() && !final(self).knows_peer(peer_id@),
    {
        match self.find_session(peer_id) {
            Some(at) => {
                let ghost ids = self.peer_ids();
                let _ = self.sessions.remove(at);
                proof {
                    assert(self.peer_ids() =~= ids.remove(at as int));
                    if old(self).wf() {
                        lemma_removed_is_gone(ids, peer_id@);
                    }
                }
                true
            },
            None => false,
        }
    }

    /// Forgets every session, as on logout. The account is untouched.
    pub fn delete_all_sessions(&mut self)
        ensures
            final(self).sessions() == Seq::<RatchetSession>::empty(),
            final(self).account() == old(self).account(),
            final(self).sealing_key() == old(self).sealing_key(),
            final(self).wf(),
    {
        self.sessions.clear();
    }

    /// The counts of every session.
    pub fn get_session_stats(&self) -> (stats: Vec<SessionStats>)
        ensures
            stats@.len() == self.sessions().len(),
            forall|i: int|
                0 <= i < stats@.len() ==> {
                    &&& (#[trigger] stats@[i]).peer_id@ == self.peer_ids()[i]
                    &&& stats@[i].session_id@ == self.sessions()[i].id_text()
                    &&& stats@[i].messages_sent == self.sessions()[i].sent()
                    &&& stats@[i].messages_received == self.sessions()[i].received()
                },
    {
        let mut stats: Vec<SessionStats> = Vec::new();
        let mut i: usize = 0;
        while i < self.sessions.len()
            invariant
                i <= self.sessions@.len(),
                stats@.len() == i,
                forall|k: int|
                    0 <= k < i ==> {
                        &&& (#[trigger] stats@[k]).peer_id@ == self.peer_ids()[k]
                        &&& stats@[k].session_id@ == self.sessions()[k].id_text()
                        &&& stats@[k].messages_sent == self.sessions()[k].sent()
                        &&& stats@[k].messages_received == self.sessions()[k].received()
                    },
            decreases self.sessions@.len() - i,
        {
            stats.push(self.sessions[i].stats());
            i += 1;
        }
        stats
    }

    /// Whether more one-time keys are needed, given the count of stored
    /// one-time prekeys: fewer than 25, or a count that could not be had.
    pub fn needs_more_keys(stored_count: Option<i64>) -> (needed: bool)
        ensures
            needed == match stored_count {
                Some(count) => count < LOW_WATER_MARK,
                None => true,
            },
    {
        match stored_count {
            Some(count) => count < LOW_WATER_MARK,
            None => true,
        }
    }

    /// The fingerprint of our identity key: 16 hexadecimal characters.
    pub fn fingerprint(&self) -> (text: String)
        ensures
            text@ == fingerprint_of(self.identity()),
            text@.len() == 16,
    {
        let key = self.identity_key();
        fingerprint(key.as_slice())
    }

    /// The whole state as it is to be written: the account, then every
    /// session.
    pub fn persist(&self) -> (r: CryptoResult<(String, Vec<SessionWrite>)>)
        ensures
            r is Ok ==> self.account().sealed_in(r->Ok_0.0@, self.sealing_key()),
            r is Ok ==> r->Ok_0.1@.len() == self.sessions().len() && forall|i: int|
                0 <= i < self.sessions().len() ==> writes_session(
                    self.sessions()[i],
                    #[trigger] r->Ok_0.1@[i],
                    self.sealing_key(),
                ),
            r is Err ==> r->Err_0 is SerializationError || r->Err_0 is EncryptionError || r->Err_0
                is InternalError,
    {
        let account_data = match self.account.pickle(&self.pickle_key) {
            Ok(a) => a,
            Err(e) => {
                return Err(e);
            },
        };
        let mut writes: Vec<SessionWrite> = Vec::new();
        let mut i: usize = 0;
        while i < self.sessions.len()
            invariant
                i <= self.sessions@.len(),
                writes@.len() == i,
                forall|k: int|
                    0 <= k < i ==> writes_session(
                        self.sessions()[k],
                        #[trigger] writes@[k],
                        self.sealing_key(),
                    ),
            decreases self.sessions@.len() - i,
        {
            match Self::session_write(&self.sessions[i], &self.pickle_key) {
                Ok(w) => {
                    writes.push(w);
                },
                Err(e) => {
                    return Err(e);
                },
            }
            i += 1;
        }
        Ok((account_data, writes))
    }

    /// The key under which state is sealed, for export or backup.
    pub fn pickle_key(&self) -> (key: &PickleKey)
        ensures
            key@ == self.sealing_key(),
    {
        &self.pickle_key
    }
}

/// Whether an identity key is 32 bytes and the peer's id is its lowercase
/// hexadecimal form.
pub open spec fn names_peer(peer_id: Seq<char>, identity_key: Seq<u8>) -> bool {
    identity_key.len() == 32 && hex_encoding(identity_key) == peer_id
}

/// Whether bytes are an envelope of the Signal protocol around a message.
pub open spec fn readable(bytes: Seq<u8>) -> bool {
    &&& is_envelope(bytes)
    &&& envelope_mode(bytes) == EncryptionMode::Signal
    &&& envelope_ciphertext(bytes).len() > 0
}

/// The message inside a readable envelope.
pub open spec fn inner_message(bytes: Seq<u8>) -> (u8, Seq<u8>) {
    (envelope_ciphertext(bytes)[0], envelope_ciphertext(bytes).subrange(1, envelope_ciphertext(bytes).len() as int))
}

/// Whether a session lets a message through to its ratchet: the message
/// decodes and skips no more than `MAX_SKIP` keys of its chain.
pub open spec fn admitted_by(session: RatchetSession, message: (u8, Seq<u8>)) -> bool {
    match crate::olm::olm_position(message.0, message.1) {
        Some(p) => crate::ratchet::admits(session.marks(), p.0, p.1),
        None => false,
    }
}

} // verus!
