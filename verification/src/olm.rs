//! The calls into the Olm implementation: accounts, sessions and messages.
//!
//! An account and a session are values of the outside library and stay
//! opaque; what the rest of this library reads of them crosses this boundary
//! as plain bytes. Contracts here are taken on trust.

use vstd::prelude::*;
use vodozemac::olm::{Account, AccountPickle, OlmMessage, Session, SessionConfig, SessionPickle};
use vodozemac::Curve25519PublicKey;

verus! {

/// An Olm account: identity keys and one-time keys.
#[verifier::external_type_specification]
#[verifier::external_body]
pub struct ExAccount(vodozemac::olm::Account);

/// An Olm session: the Double Ratchet with one peer.
#[verifier::external_type_specification]
#[verifier::external_body]
pub struct ExSession(vodozemac::olm::Session);

/// A decoded Olm message of either type.
#[verifier::external_type_specification]
#[verifier::external_body]
pub struct ExOlmMessage(vodozemac::olm::OlmMessage);

/// The ratchet key and the chain index that an encoded Olm message of the
/// given type carries in its header; `None` where the bytes do not decode as
/// a message of that type. Type 0 is a pre-key message, type 1 a normal one;
/// there is no other.
pub uninterp spec fn olm_position(message_type: u8, encoded: Seq<u8>) -> Option<(Seq<u8>, u64)>;

/// The one-time keys of an account that are not yet marked as published:
/// each public key under its id, the id in base64.
pub uninterp spec fn account_unpublished_keys(account: Account) -> Map<Seq<char>, Seq<u8>>;

/// The number of one-time keys, published or not, whose secret half an
/// account holds.
pub uninterp spec fn account_stored_key_count(account: Account) -> nat;

/// The number of one-time keys that an account holds at most: beyond it the
/// oldest key is discarded for each new one.
pub const KEY_STORE_LIMIT: usize = 5000;

/// The number of one-time keys that the Olm implementation tells a client to
/// keep published.
pub const PUBLISHED_KEY_LIMIT: usize = 50;

/// No key at all.
pub open spec fn no_keys() -> Map<Seq<char>, Seq<u8>> {
    Map::empty()
}

/// Whether a list of keys with their ids is what an account holds
/// unpublished: every listed key is held under its id, no id is listed
/// twice, and every id that is held is listed.
pub open spec fn lists_held_keys(ids: Seq<Seq<char>>, keys: Seq<Seq<u8>>, held: Map<Seq<char>, Seq<u8>>) -> bool {
    &&& ids.len() == keys.len()
    &&& forall|i: int| 0 <= i < ids.len() ==> held.contains_pair(#[trigger] ids[i], keys[i])
    &&& forall|i: int, j: int| 0 <= i < j < ids.len() ==> ids[i] != ids[j]
    &&& forall|id: Seq<char>| #[trigger] held.dom().contains(id) ==> ids.contains(id)
}

/// Whether each of the keys is held under an id of its own: there are as
/// many different ids as keys, and each id holds its key.
pub open spec fn held_under_own_ids(held: Map<Seq<char>, Seq<u8>>, keys: Seq<Seq<u8>>) -> bool {
    exists|ids: Seq<Seq<char>>|
        {
            &&& ids.len() == keys.len()
            &&& forall|i: int, j: int| 0 <= i < j < ids.len() ==> ids[i] != ids[j]
            &&& forall|k: int| 0 <= k < ids.len() ==> #[trigger] held.contains_pair(ids[k], keys[k])
        }
}

/// How generating `count` one-time keys changes what an account holds
/// unpublished, given the keys that were created and those that were
/// discarded to make room: one key is created per request; whatever is held
/// afterwards was held before or was created; every created key is held
/// afterwards unless it was discarded again. Where the account had room for
/// all of them nothing is discarded, and each created key is held
/// afterwards under an id of its own.
pub open spec fn generated_keys(
    before: Map<Seq<char>, Seq<u8>>,
    after: Map<Seq<char>, Seq<u8>>,
    count: nat,
    created: Seq<Seq<u8>>,
    discarded: Seq<Seq<u8>>,
    had_room: bool,
) -> bool {
    &&& created.len() == count
    &&& had_room ==> discarded.len() == 0
    &&& had_room ==> held_under_own_ids(after, created)
    &&& forall|id: Seq<char>| #[trigger]
        after.dom().contains(id) ==> before.contains_pair(id, after[id]) || created.contains(
            after[id],
        )
    &&& forall|k: int|
        0 <= k < created.len() ==> after.contains_value(#[trigger] created[k]) || discarded.contains(
            created[k],
        )
}

/// The ids of a list of keys.
pub open spec fn listed_ids(keys: Seq<(String, [u8; 32])>) -> Seq<Seq<char>> {
    Seq::new(keys.len(), |i: int| keys[i].0@)
}

/// The public keys of a list of keys.
pub open spec fn listed_keys(keys: Seq<(String, [u8; 32])>) -> Seq<Seq<u8>> {
    Seq::new(keys.len(), |i: int| keys[i].1@)
}

/// The bytes of each key of a list.
pub open spec fn key_bytes(keys: Seq<[u8; 32]>) -> Seq<Seq<u8>> {
    Seq::new(keys.len(), |i: int| keys[i]@)
}

/// Whether JSON bytes describe an account.
pub uninterp spec fn account_json_valid(json: Seq<u8>) -> bool;

/// The Curve25519 identity key of the account that JSON bytes describe.
pub uninterp spec fn account_json_identity(json: Seq<u8>) -> Seq<u8>;

/// The Ed25519 signing key of the account that JSON bytes describe.
pub uninterp spec fn account_json_signing_key(json: Seq<u8>) -> Seq<u8>;

/// Whether JSON bytes describe a session.
pub uninterp spec fn session_json_valid(json: Seq<u8>) -> bool;

/// The id of the session that JSON bytes describe.
pub uninterp spec fn session_json_id(json: Seq<u8>) -> Seq<char>;

/// `vodozemac::olm::Account::new`: an account with fresh random identity
/// keys and no one-time keys.
#[verifier::external_body]
pub(crate) fn account_new() -> (account: Account)
    ensures
        account_unpublished_keys(account) == no_keys(),
        account_stored_key_count(account) == 0,
{
    Account::new()
}

/// `Account::curve25519_key`: the account's Curve25519 identity key.
#[verifier::external_body]
pub(crate) fn account_curve25519_key(account: &Account) -> (key: [u8; 32])
{
    account.curve25519_key().to_bytes()
}

/// `Account::ed25519_key`: the account's Ed25519 signing key.
#[verifier::external_body]
pub(crate) fn account_ed25519_key(account: &Account) -> (key: [u8; 32])
{
    *account.ed25519_key().as_bytes()
}

/// `Account::generate_one_time_keys`: the public keys that were created and
/// those that were discarded. One key is created per request and held
/// unpublished, each under the next id in turn; the account keeps at most
/// `KEY_STORE_LIMIT` keys and discards the oldest for each new one beyond
/// that. So where the keys it held and the new ones together stay within the
/// limit, nothing is discarded, the new keys stand under as many different
/// ids, and the account stores at least as many keys as were asked for. An
/// id that was held already is overwritten, so the count need not grow by
/// the number of new keys.
#[verifier::external_body]
pub(crate) fn account_generate_one_time_keys(account: &mut Account, count: usize) -> (made: (Vec<[u8; 32]>, Vec<[u8; 32]>))
    ensures
        generated_keys(
            account_unpublished_keys(*old(account)),
            account_unpublished_keys(*final(account)),
            count as nat,
            key_bytes(made.0@),
            key_bytes(made.1@),
            account_stored_key_count(*old(account)) + count <= KEY_STORE_LIMIT,
        ),
        account_stored_key_count(*final(account)) <= account_stored_key_count(*old(account)) + made.0@.len(),
        account_stored_key_count(*old(account)) + count <= KEY_STORE_LIMIT ==> account_stored_key_count(*final(account)) >= made.0@.len(),
{
    let result = account.generate_one_time_keys(count);
    (
        result.created.iter().map(|key| key.to_bytes()).collect(),
        result.removed.iter().map(|key| key.to_bytes()).collect(),
    )
}

/// `Account::one_time_keys`: the unpublished one-time keys, each with its id
/// in base64, in no particular order.
#[verifier::external_body]
pub(crate) fn account_one_time_keys(account: &Account) -> (keys: Vec<(String, [u8; 32])>)
    ensures
        lists_held_keys(listed_ids(keys@), listed_keys(keys@), account_unpublished_keys(*account)),
{
    account.one_time_keys().into_iter().map(|(id, key)| (id.to_base64(), key.to_bytes())).collect()
}

/// `Account::mark_keys_as_published`: afterwards no one-time key is held
/// unpublished. No key is dropped.
#[verifier::external_body]
pub(crate) fn account_mark_keys_as_published(account: &mut Account)
    ensures
        account_unpublished_keys(*final(account)) == no_keys(),
        account_stored_key_count(*final(account)) == account_stored_key_count(*old(account)),
{
    account.mark_keys_as_published();
}

/// `Account::stored_one_time_key_count`: the number of one-time keys whose
/// secret half the account holds.
#[verifier::external_body]
pub(crate) fn account_stored_one_time_key_count(account: &Account) -> (count: usize)
    ensures
        count == account_stored_key_count(*account),
{
    account.stored_one_time_key_count()
}

/// `Account::max_number_of_one_time_keys`: a constant of the Olm
/// implementation.
#[verifier::external_body]
pub(crate) fn account_max_one_time_keys(account: &Account) -> (count: usize)
    ensures
        count == PUBLISHED_KEY_LIMIT,
{
    account.max_number_of_one_time_keys()
}

/// `Account::create_outbound_session` with the version 2 configuration.
#[verifier::external_body]
pub(crate) fn account_create_outbound_session(account: &Account, their_identity_key: &[u8; 32], their_one_time_key: &[u8; 32]) -> (session: Session)
{
    account.create_outbound_session(
        SessionConfig::version_2(),
        Curve25519PublicKey::from_bytes(*their_identity_key),
        Curve25519PublicKey::from_bytes(*their_one_time_key),
    )
}

/// `Account::create_inbound_session` on a pre-key message: the new session
/// and the plaintext of the message, or `None` where the message names
/// another identity, uses a one-time key that the account does not hold, or
/// does not decrypt. A normal message creates nothing. The account changes
/// only on success, when it drops the one-time key that was used: no key is
/// held unpublished afterwards that was not held before.
#[verifier::external_body]
pub(crate) fn account_create_inbound_session(account: &mut Account, their_identity_key: &[u8; 32], message: &OlmMessage) -> (created: Option<(Session, Vec<u8>)>)
    ensures
        created is None ==> *final(account) == *old(account),
        account_unpublished_keys(*final(account)).submap_of(account_unpublished_keys(*old(account))),
        account_stored_key_count(*final(account)) <= account_stored_key_count(*old(account)),
{
    let identity = Curve25519PublicKey::from_bytes(*their_identity_key);
    match message {
        OlmMessage::PreKey(m) => account.create_inbound_session(identity, m).ok().map(|r| (r.session, r.plaintext)),
        OlmMessage::Normal(_) => None,
    }
}

/// `serde_json::to_vec` on `Account::pickle`: the account's state as JSON,
/// with the account's two public keys as `Account::curve25519_key` and
/// `Account::ed25519_key` give them. What is written is what
/// `account_from_json` reads back as an account with these keys.
#[verifier::external_body]
pub(crate) fn account_to_json(account: &Account) -> (written: Option<(Vec<u8>, [u8; 32], [u8; 32])>)
    ensures
        match written {
            Some(w) => account_json_valid(w.0@) && account_json_identity(w.0@) == w.1@
                && account_json_signing_key(w.0@) == w.2@,
            None => true,
        },
{
    let identity = account.curve25519_key().to_bytes();
    let signing = *account.ed25519_key().as_bytes();
    serde_json::to_vec(&account.pickle()).ok().map(|json| (json, identity, signing))
}

/// `serde_json::from_slice` into an `AccountPickle`, then `Account::from`:
/// the account that the JSON describes, with its two public keys as
/// `Account::curve25519_key` and `Account::ed25519_key` give them.
#[verifier::external_body]
pub(crate) fn account_from_json(json: &[u8]) -> (read: Option<(Account, [u8; 32], [u8; 32])>)
    ensures
        read is Some <==> account_json_valid(json@),
        match read {
            Some(r) => r.1@ == account_json_identity(json@) && r.2@ == account_json_signing_key(json@),
            None => true,
        },
{
    serde_json::from_slice::<AccountPickle>(json).ok().map(Account::from).map(|account| {
        let identity = account.curve25519_key().to_bytes();
        let signing = *account.ed25519_key().as_bytes();
        (account, identity, signing)
    })
}

/// `Session::session_id`.
#[verifier::external_body]
pub(crate) fn session_id(session: &Session) -> (id: String)
{
    session.session_id()
}

/// `Session::encrypt`: the next message of the sending chain.
#[verifier::external_body]
pub(crate) fn session_encrypt(session: &mut Session, plaintext: &[u8]) -> (message: OlmMessage)
{
    session.encrypt(plaintext)
}

/// `Session::decrypt`: the plaintext, or `None` where the message does not
/// authenticate, lies too far ahead in its chain, or needs a message key
/// that is no longer kept. Nothing is stated of the session afterwards. For
/// a message on a chain that the session does not know, `decrypt_decoded`
/// calls `DoubleRatchet::advance` before it decrypts; `advance` takes the
/// sending ratchet by `&mut` and, where that ratchet is inactive, activates
/// it with a fresh ratchet key and stores it in place. If the message is
/// then refused, the session has changed.
#[verifier::external_body]
pub(crate) fn session_decrypt(session: &mut Session, message: &OlmMessage) -> (plaintext: Option<Vec<u8>>)
{
    session.decrypt(message).ok()
}

/// `Session::pickle` followed by `Session::from`: a copy of the session, with
/// the same session keys, sending ratchet, receiving chains and
/// configuration.
#[verifier::external_body]
pub(crate) fn session_snapshot(session: &Session) -> (copy: Session)
    ensures
        copy == *session,
{
    Session::from(session.pickle())
}

/// `serde_json::to_vec` on `Session::pickle`: the session's state as JSON,
/// with the session's id as `Session::session_id` gives it. What is written
/// is what `session_from_json` reads back as a session with this id.
#[verifier::external_body]
pub(crate) fn session_to_json(session: &Session) -> (written: Option<(Vec<u8>, String)>)
    ensures
        match written {
            Some(w) => session_json_valid(w.0@) && session_json_id(w.0@) == w.1@,
            None => true,
        },
{
    let id = session.session_id();
    serde_json::to_vec(&session.pickle()).ok().map(|json| (json, id))
}

/// `serde_json::from_slice` into a `SessionPickle`, then `Session::from`:
/// the session that the JSON describes, with its id as
/// `Session::session_id` gives it.
#[verifier::external_body]
pub(crate) fn session_from_json(json: &[u8]) -> (read: Option<(Session, String)>)
    ensures
        read is Some <==> session_json_valid(json@),
        match read {
            Some(r) => r.1@ == session_json_id(json@),
            None => true,
        },
{
    serde_json::from_slice::<SessionPickle>(json).ok().map(Session::from).map(|session| {
        let id = session.session_id();
        (session, id)
    })
}

/// `OlmMessage::to_parts`: the message type, 0 for a pre-key message and 1
/// for a normal one, and the encoded message. The encoding is in the format
/// that `OlmMessage::from_parts` expects for the type: it decodes again.
#[verifier::external_body]
pub(crate) fn olm_to_parts(message: &OlmMessage) -> (parts: (usize, Vec<u8>))
    ensures
        parts.0 <= 1,
        olm_position(parts.0 as u8, parts.1@) is Some,
{
    message.to_parts()
}

/// `OlmMessage::from_parts`, with the ratchet key and the chain index read
/// off the decoded message's header. Only types 0 and 1 decode.
#[verifier::external_body]
pub(crate) fn olm_from_parts(message_type: u8, encoded: &[u8]) -> (decoded: Option<(OlmMessage, [u8; 32], u64)>)
    ensures
        match decoded {
            Some(d) => olm_position(message_type, encoded@) == Some((d.1@, d.2)) && message_type <= 1,
            None => olm_position(message_type, encoded@) is None,
        },
{
    OlmMessage::from_parts(message_type.into(), encoded).ok().map(|m| {
        let (key, index) = match &m {
            OlmMessage::Normal(n) => (n.ratchet_key(), n.chain_index()),
            OlmMessage::PreKey(p) => (p.message().ratchet_key(), p.message().chain_index()),
        };
        (m, key.to_bytes(), index)
    })
}

} // verus!
