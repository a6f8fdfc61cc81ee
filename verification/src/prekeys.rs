//! Prekey lifecycle: the signed prekey and the pool of one-time prekeys.
//!
//! The signed prekey is rotated when it grows old; the generation before it
//! stays resolvable by its id, so that a handshake begun against it can still
//! be answered. One-time prekeys carry ascending ids, are handed out once and
//! are replenished in batches when the pool runs low.

use vstd::prelude::*;
use crate::errors::CryptoResult;
use crate::keys::{
    older_than, Curve25519KeyPair, IdentityKeyPair, OneTimePreKey, SignedPreKey, StoredPreKey,
    fingerprint_of,
};
use crate::lookup::{all_distinct, first_position, lemma_first_position_exists, lemma_removed_is_gone};
use crate::primitives::{ed25519_key_valid, unix_time_now};
use crate::x3dh::PreKeyBundle;

verus! {

/// Configuration of prekey management.
pub struct PreKeyConfig {
    /// Number of one-time prekeys generated at the start.
    pub initial_batch_size: usize,
    /// Number of one-time prekeys generated when replenishing.
    pub replenishment_batch_size: usize,
    /// Pool size below which replenishment is due.
    pub min_prekey_count: usize,
    /// Age in days after which the signed prekey is rotated.
    pub signed_prekey_max_age_days: i64,
}

impl Default for PreKeyConfig {
    fn default() -> (config: Self)
        ensures
            config.initial_batch_size == 100,
            config.replenishment_batch_size == 100,
            config.min_prekey_count == 25,
            config.signed_prekey_max_age_days == 7,
    {
        PreKeyConfig {
            initial_batch_size: 100,
            replenishment_batch_size: 100,
            min_prekey_count: 25,
            signed_prekey_max_age_days: 7,
        }
    }
}

/// A one-time prekey in the pool.
struct PoolEntry {
    key_id: u32,
    pair: Curve25519KeyPair,
}

/// The signed prekey of the generation before the current one.
struct RetiredPreKey {
    key_id: u32,
    pair: Curve25519KeyPair,
}

/// The ids `start, start + 1, ..` of a batch of `count` keys.
pub open spec fn batch_ids(start: int, count: int) -> Seq<u32> {
    Seq::new(count as nat, |i: int| (start + i) as u32)
}

/// The number of seconds from `created_at` to `now`, held to the range of
/// `i64`.
pub open spec fn age_seconds(created_at: int, now: int) -> int {
    if now - created_at > i64::MAX {
        i64::MAX as int
    } else if now - created_at < i64::MIN {
        i64::MIN as int
    } else {
        now - created_at
    }
}

/// Taking the first occurrence of an id out of a pool without repeats leaves
/// a pool without repeats that no longer holds the id: a one-time prekey
/// cannot be handed out twice.
pub proof fn lemma_consumed_id_is_gone(ids: Seq<u32>, key: u32)
    requires
        all_distinct(ids),
        ids.contains(key),
    ensures
        0 <= first_position(ids, key) < ids.len(),
        ids[first_position(ids, key)] == key,
        all_distinct(ids.remove(first_position(ids, key))),
        !ids.remove(first_position(ids, key)).contains(key),
{
    lemma_removed_is_gone(ids, key);
}

/// Generates and keeps the prekeys of one account.
pub struct PreKeyManager {
    identity: IdentityKeyPair,
    signed_prekey: Curve25519KeyPair,
    signed_prekey_id: u32,
    signed_prekey_created: i64,
    retired: Option<RetiredPreKey>,
    one_time_prekeys: Vec<PoolEntry>,
    next_prekey_id: u32,
    config: PreKeyConfig,
}

/// A summary of the prekeys at one moment.
#[derive(Debug, Clone)]
pub struct PreKeyStatus {
    /// Number of one-time prekeys in the pool.
    pub one_time_prekey_count: usize,
    /// Whether replenishment is due.
    pub needs_replenishment: bool,
    /// Whether the signed prekey is due for rotation.
    pub needs_rotation: bool,
    /// Age of the signed prekey in seconds.
    pub signed_prekey_age_seconds: i64,
    /// Fingerprint of the identity key.
    pub fingerprint: String,
}

impl PreKeyManager {
    /// The identity that signs the prekeys.
    pub closed spec fn identity_pair(&self) -> IdentityKeyPair {
        self.identity
    }

    /// The current signed prekey.
    pub closed spec fn signed_pair(&self) -> Curve25519KeyPair {
        self.signed_prekey
    }

    /// The id of the current signed prekey.
    pub closed spec fn signed_id(&self) -> u32 {
        self.signed_prekey_id
    }

    /// When the current signed prekey was created.
    pub closed spec fn signed_created(&self) -> i64 {
        self.signed_prekey_created
    }

    /// The id of the signed prekey of the previous generation, if one is kept.
    pub closed spec fn retired_id(&self) -> Option<u32> {
        match self.retired {
            Some(r) => Some(r.key_id),
            None => None,
        }
    }

    /// The signed prekey of the previous generation, if one is kept.
    pub closed spec fn retired_pair(&self) -> Option<Curve25519KeyPair> {
        match self.retired {
            Some(r) => Some(r.pair),
            None => None,
        }
    }

    /// The ids of the one-time prekeys in the pool, oldest first.
    pub closed spec fn pool_ids(&self) -> Seq<u32> {
        Seq::new(self.one_time_prekeys@.len(), |i: int| self.one_time_prekeys@[i].key_id)
    }

    /// The key pairs of the one-time prekeys in the pool, oldest first.
    pub closed spec fn pool_pairs(&self) -> Seq<Curve25519KeyPair> {
        Seq::new(self.one_time_prekeys@.len(), |i: int| self.one_time_prekeys@[i].pair)
    }

    /// The id that the next new one-time prekey gets.
    pub closed spec fn next_id(&self) -> u32 {
        self.next_prekey_id
    }

    /// The configuration.
    pub closed spec fn settings(&self) -> PreKeyConfig {
        self.config
    }

    /// Ids and key pairs of the pool go together, one for one.
    pub broadcast proof fn lemma_pool_lengths(&self)
        ensures
            #[trigger] self.pool_ids().len() == self.pool_pairs().len(),
    {
    }

    /// The pool holds no id twice, and every id in it lies below the next
    /// fresh id.
    pub open spec fn wf(&self) -> bool {
        &&& all_distinct(self.pool_ids())
        &&& forall|i: int| 0 <= i < self.pool_ids().len() ==> self.pool_ids()[i] < self.next_id()
    }

    /// The identity can sign: its public key belongs to its seed and decodes.
    pub open spec fn identity_sound(&self) -> bool {
        self.identity_pair().is_matched() && ed25519_key_valid(self.identity_pair().public_bytes())
    }

    /// The signed prekey pair, current or retired, that has the given id.
    pub open spec fn signed_pair_for(&self, key_id: u32) -> Option<Curve25519KeyPair> {
        if key_id == self.signed_id() {
            Some(self.signed_pair())
        } else if self.retired_id() == Some(key_id) {
            self.retired_pair()
        } else {
            None
        }
    }

    /// A manager with fresh keys and the default configuration: signed
    /// prekey 0 and one-time prekeys 0 to 99.
    pub fn new(identity: IdentityKeyPair) -> (manager: Self)
        ensures
            manager.identity_pair() == identity,
            manager.signed_id() == 0,
            manager.retired_id() is None,
            manager.pool_ids() == batch_ids(0, 100),
            manager.next_id() == 100,
            manager.settings().min_prekey_count == 25,
            manager.settings().replenishment_batch_size == 100,
            manager.settings().signed_prekey_max_age_days == 7,
            manager.signed_pair().is_matched(),
            manager.wf(),
    {
        Self::with_config(identity, PreKeyConfig::default())
    }

    /// A manager with fresh keys: signed prekey 0 and an initial batch of
    /// one-time prekeys with ids from 0. Ids are 32 bits wide, which bounds
    /// the batch.
    pub fn with_config(identity: IdentityKeyPair, config: PreKeyConfig) -> (manager: Self)
        requires
            config.initial_batch_size <= u32::MAX,
        ensures
            manager.identity_pair() == identity,
            manager.signed_id() == 0,
            manager.retired_id() is None,
            manager.pool_ids() == batch_ids(0, config.initial_batch_size as int),
            manager.next_id() == config.initial_batch_size,
            manager.settings() == config,
            manager.signed_pair().is_matched(),
            manager.wf(),
    {
        let signed_prekey = Curve25519KeyPair::generate();
        let one_time_prekeys = Self::generate_prekey_batch(0, config.initial_batch_size);
        let next_prekey_id: u32 = config.initial_batch_size as u32;
        let manager = PreKeyManager {
            identity,
            signed_prekey,
            signed_prekey_id: 0,
            signed_prekey_created: unix_time_now(),
            retired: None,
            one_time_prekeys,
            next_prekey_id,
            config,
        };
        assert(manager.pool_ids() =~= batch_ids(0, config.initial_batch_size as int));
        manager
    }

    /// Restores a manager from persisted state. Every stored key must hold
    /// 32 bytes in each half. The pool is taken as given: whether it is
    /// well formed is for the caller to see.
    pub fn restore(
        identity: IdentityKeyPair,
        signed_prekey: StoredPreKey,
        signed_prekey_created: i64,
        one_time_prekeys: Vec<StoredPreKey>,
        next_prekey_id: u32,
        config: PreKeyConfig,
    ) -> (r: CryptoResult<Self>)
        ensures
            r is Ok <==> {
                &&& signed_prekey.public_key@.len() == 32
                &&& signed_prekey.secret_key@.len() == 32
                &&& forall|i: int|
                    0 <= i < one_time_prekeys@.len() ==> (#[trigger] one_time_prekeys@[i]).public_key@.len()
                        == 32 && one_time_prekeys@[i].secret_key@.len() == 32
            },
            r is Ok ==> {
                let m = r->Ok_0;
                &&& m.identity_pair() == identity
                &&& m.signed_id() == signed_prekey.key_id
                &&& m.signed_pair().public_bytes() == signed_prekey.public_key@
                &&& m.signed_pair().secret_bytes() == signed_prekey.secret_key@
                &&& m.signed_created() == signed_prekey_created
                &&& m.retired_id() is None
                &&& m.next_id() == next_prekey_id
                &&& m.settings() == config
                &&& m.pool_ids().len() == one_time_prekeys@.len()
                &&& forall|i: int|
                    0 <= i < one_time_prekeys@.len() ==> {
                        &&& m.pool_ids()[i] == (#[trigger] one_time_prekeys@[i]).key_id
                        &&& m.pool_pairs()[i].public_bytes() == one_time_prekeys@[i].public_key@
                        &&& m.pool_pairs()[i].secret_bytes() == one_time_prekeys@[i].secret_key@
                    }
            },
            r is Err ==> r->Err_0 is InvalidKey,
    {
        let signed_kp = match signed_prekey.to_keypair() {
            Ok(p) => p,
            Err(e) => {
                return Err(e);
            },
        };
        let mut pool: Vec<PoolEntry> = Vec::new();
        let mut i: usize = 0;
        while i < one_time_prekeys.len()
            invariant
                i <= one_time_prekeys@.len(),
                pool@.len() == i,
                forall|k: int|
                    0 <= k < i ==> {
                        &&& (#[trigger] one_time_prekeys@[k]).public_key@.len() == 32
                        &&& one_time_prekeys@[k].secret_key@.len() == 32
                        &&& pool@[k].key_id == one_time_prekeys@[k].key_id
                        &&& pool@[k].pair.public_bytes() == one_time_prekeys@[k].public_key@
                        &&& pool@[k].pair.secret_bytes() == one_time_prekeys@[k].secret_key@
                    },
            decreases one_time_prekeys@.len() - i,
        {
            let stored = &one_time_prekeys[i];
            let pair = match stored.to_keypair() {
                Ok(p) => p,
                Err(e) => {
                    return Err(e);
                },
            };
            pool.push(PoolEntry { key_id: stored.key_id, pair });
            i += 1;
        }
        Ok(
            PreKeyManager {
                identity,
                signed_prekey: signed_kp,
                signed_prekey_id: signed_prekey.key_id,
                signed_prekey_created,
                retired: None,
                one_time_prekeys: pool,
                next_prekey_id,
                config,
            },
        )
    }

    /// A batch of fresh one-time prekeys with ascending ids.
    fn generate_prekey_batch(start_id: u32, count: usize) -> (batch: Vec<PoolEntry>)
        requires
            start_id + count <= u32::MAX,
        ensures
            batch@.len() == count,
            forall|i: int|
                0 <= i < count ==> (#[trigger] batch@[i]).key_id == start_id + i
                    && batch@[i].pair.is_matched(),
    {
        let mut batch: Vec<PoolEntry> = Vec::new();
        let mut i: usize = 0;
        while i < count
            invariant
                i <= count,
                start_id + count <= u32::MAX,
                batch@.len() == i,
                forall|k: int|
                    0 <= k < i ==> (#[trigger] batch@[k]).key_id == start_id + k
                        && batch@[k].pair.is_matched(),
            decreases count - i,
        {
            let key_id: u32 = start_id + i as u32;
            batch.push(PoolEntry { key_id, pair: Curve25519KeyPair::generate() });
            i += 1;
        }
        batch
    }

    /// The signed prekey record for publication: the current public key under
    /// its id, signed by the identity, with the time the key was created.
    pub fn get_signed_prekey(&self) -> (record: SignedPreKey)
        ensures
            record.key_id == self.signed_id(),
            record.public_key@ == self.signed_pair().public_bytes(),
            record.created_at == self.signed_created(),
            self.identity_sound() ==> record.signed_by(self.identity_pair().public_bytes()),
    {
        SignedPreKey::new_at(
            self.signed_prekey_id,
            &self.signed_prekey,
            &self.identity,
            self.signed_prekey_created,
        )
    }

    /// The public records of the whole pool, for publication.
    pub fn get_one_time_prekeys(&self) -> (records: Vec<OneTimePreKey>)
        ensures
            records@.len() == self.pool_ids().len(),
            forall|i: int|
                0 <= i < records@.len() ==> (#[trigger] records@[i]).key_id == self.pool_ids()[i]
                    && records@[i].public_key@ == self.pool_pairs()[i].public_bytes(),
    {
        let mut records: Vec<OneTimePreKey> = Vec::new();
        let mut i: usize = 0;
        while i < self.one_time_prekeys.len()
            invariant
                i <= self.one_time_prekeys@.len(),
                records@.len() == i,
                forall|k: int|
                    0 <= k < i ==> (#[trigger] records@[k]).key_id == self.one_time_prekeys@[k].key_id
                        && records@[k].public_key@ == self.one_time_prekeys@[k].pair.public_bytes(),
            decreases self.one_time_prekeys@.len() - i,
        {
            let entry = &self.one_time_prekeys[i];
            records.push(OneTimePreKey::new(entry.key_id, &entry.pair));
            i += 1;
        }
        records
    }

    /// The bundle that a peer fetches: the identity public key, the signed
    /// prekey record and the oldest one-time prekey, if the pool has any.
    /// With a sound identity the bundle is authentic.
    pub fn get_bundle(&self) -> (bundle: PreKeyBundle)
        ensures
            bundle.identity_key@ == self.identity_pair().public_bytes(),
            bundle.signed_prekey.key_id == self.signed_id(),
            bundle.signed_prekey.public_key@ == self.signed_pair().public_bytes(),
            bundle.signed_prekey.created_at == self.signed_created(),
            bundle.one_time_prekey is Some <==> self.pool_ids().len() > 0,
            bundle.one_time_prekey is Some ==> bundle.one_time_prekey->0.key_id == self.pool_ids()[0]
                && bundle.one_time_prekey->0.public_key@ == self.pool_pairs()[0].public_bytes(),
            self.identity_sound() ==> bundle.is_authentic(),
    {
        let one_time_prekey = if self.one_time_prekeys.len() > 0 {
            let entry = &self.one_time_prekeys[0];
            Some(OneTimePreKey::new(entry.key_id, &entry.pair))
        } else {
            None
        };
        PreKeyBundle {
            identity_key: self.identity.public_key_bytes(),
            signed_prekey: self.get_signed_prekey(),
            one_time_prekey,
        }
    }

    /// Takes the one-time prekey with the given id out of the pool and
    /// returns its key pair; `None` if the pool holds no such key, as after
    /// it was consumed. Nothing else changes.
    pub fn consume_prekey(&mut self, key_id: u32) -> (taken: Option<Curve25519KeyPair>)
        ensures
            taken is Some <==> old(self).pool_ids().contains(key_id),
            taken is Some ==> {
                let at = first_position(old(self).pool_ids(), key_id);
                &&& 0 <= at < old(self).pool_ids().len()
                &&& taken->0 == old(self).pool_pairs()[at]
                &&& final(self).pool_ids() == old(self).pool_ids().remove(at)
                &&& final(self).pool_pairs() == old(self).pool_pairs().remove(at)
            },
            taken is None ==> final(self).pool_ids() == old(self).pool_ids() && final(self).pool_pairs() == old(self).pool_pairs(),
            old(self).wf() ==> final(self).wf() && !final(self).pool_ids().contains(key_id),
            final(self).identity_pair() == old(self).identity_pair(),
            final(self).signed_pair() == old(self).signed_pair(),
            final(self).signed_id() == old(self).signed_id(),
            final(self).signed_created() == old(self).signed_created(),
            final(self).retired_id() == old(self).retired_id(),
            final(self).retired_pair() == old(self).retired_pair(),
            final(self).next_id() == old(self).next_id(),
            final(self).settings() == old(self).settings(),
    {
        let ghost ids = self.pool_ids();
        let ghost pairs = self.pool_pairs();
        let mut i: usize = 0;
        while i < self.one_time_prekeys.len()
            invariant
                i <= self.one_time_prekeys@.len(),
                *self == *old(self),
                ids == self.pool_ids(),
                pairs == self.pool_pairs(),
                forall|k: int| 0 <= k < i ==> self.one_time_prekeys@[k].key_id != key_id,
            decreases self.one_time_prekeys@.len() - i,
        {
            if self.one_time_prekeys[i].key_id == key_id {
                proof {
                    assert(ids[i as int] == key_id);
                    lemma_first_position_exists(ids, key_id, i as int);
                    assert(first_position(ids, key_id) == i);
                    if old(self).wf() {
                        lemma_consumed_id_is_gone(ids, key_id);
                    }
                }
                let entry = self.one_time_prekeys.remove(i);
                assert(self.pool_ids() =~= ids.remove(i as int));
                assert(self.pool_pairs() =~= pairs.remove(i as int));
                return Some(entry.pair);
            }
            i += 1;
        }
        proof {
            if ids.contains(key_id) {
                let w = choose|w: int| 0 <= w < ids.len() && ids[w] == key_id;
                assert(self.one_time_prekeys@[w].key_id == key_id);
            }
        }
        None
    }

    /// Whether the pool has fallen below the low-water mark.
    pub fn needs_replenishment(&self) -> (due: bool)
        ensures
            due == (self.pool_ids().len() < self.settings().min_prekey_count),
    {
        self.one_time_prekeys.len() < self.config.min_prekey_count
    }

    /// Adds a batch of fresh one-time prekeys with the next ids and returns
    /// their public records for upload. Ids are 32 bits wide: the batch must
    /// fit below the largest id.
    pub fn replenish(&mut self) -> (records: Vec<OneTimePreKey>)
        requires
            old(self).next_id() + old(self).settings().replenishment_batch_size <= u32::MAX,
        ensures
            final(self).pool_ids() == old(self).pool_ids() + batch_ids(
                old(self).next_id() as int,
                old(self).settings().replenishment_batch_size as int,
            ),
            final(self).pool_pairs().subrange(0, old(self).pool_pairs().len() as int) == old(self).pool_pairs(),
            final(self).next_id() == old(self).next_id() + old(self).settings().replenishment_batch_size,
            records@.len() == old(self).settings().replenishment_batch_size,
            forall|i: int|
                0 <= i < records@.len() ==> {
                    let at = old(self).pool_ids().len() + i;
                    &&& (#[trigger] records@[i]).key_id == old(self).next_id() + i
                    &&& records@[i].public_key@ == final(self).pool_pairs()[at].public_bytes()
                    &&& final(self).pool_pairs()[at].is_matched()
                },
            old(self).wf() ==> final(self).wf(),
            final(self).identity_pair() == old(self).identity_pair(),
            final(self).signed_pair() == old(self).signed_pair(),
            final(self).signed_id() == old(self).signed_id(),
            final(self).signed_created() == old(self).signed_created(),
            final(self).retired_id() == old(self).retired_id(),
            final(self).retired_pair() == old(self).retired_pair(),
            final(self).settings() == old(self).settings(),
    {
        let count: usize = self.config.replenishment_batch_size;
        let start: u32 = self.next_prekey_id;
        let ghost old_ids = self.pool_ids();
        let ghost old_pairs = self.pool_pairs();
        let mut new_keys = Self::generate_prekey_batch(start, count);
        let mut records: Vec<OneTimePreKey> = Vec::new();
        let mut i: usize = 0;
        while i < new_keys.len()
            invariant
                i <= new_keys@.len(),
                records@.len() == i,
                forall|k: int|
                    0 <= k < i ==> (#[trigger] records@[k]).key_id == new_keys@[k].key_id
                        && records@[k].public_key@ == new_keys@[k].pair.public_bytes(),
            decreases new_keys@.len() - i,
        {
            let entry = &new_keys[i];
            records.push(OneTimePreKey::new(entry.key_id, &entry.pair));
            i += 1;
        }
        let ghost batch = new_keys@;
        self.next_prekey_id = start + count as u32;
        self.one_time_prekeys.append(&mut new_keys);
        proof {
            assert(self.one_time_prekeys@ =~= old(self).one_time_prekeys@ + batch);
            assert(self.pool_ids() =~= old_ids + batch_ids(start as int, count as int));
            assert(self.pool_pairs().subrange(0, old_pairs.len() as int) =~= old_pairs);
        }
        records
    }

    /// Whether the signed prekey is older than the configured age at time
    /// `now`.
    pub fn needs_signed_prekey_rotation_at(&self, now: i64) -> (due: bool)
        ensures
            due == older_than(
                self.signed_created() as int,
                now as int,
                self.settings().signed_prekey_max_age_days as int,
            ),
    {
        let age: i128 = now as i128 - self.signed_prekey_created as i128;
        let limit: i128 = self.config.signed_prekey_max_age_days as i128 * 86400;
        age > limit
    }

    /// Whether the signed prekey is older than the configured age by the
    /// machine's clock.
    pub fn needs_signed_prekey_rotation(&self) -> (due: bool)
        ensures
            exists|now: i64|
                due == older_than(
                    self.signed_created() as int,
                    now as int,
                    self.settings().signed_prekey_max_age_days as int,
                ),
    {
        let now = unix_time_now();
        self.needs_signed_prekey_rotation_at(now)
    }

    /// Replaces the signed prekey by a fresh one with the next id, created
    /// at `now`, and returns its record for publication. The replaced key
    /// stays resolvable by its id until the next rotation.
    pub fn rotate_signed_prekey_at(&mut self, now: i64) -> (record: SignedPreKey)
        requires
            old(self).signed_id() < u32::MAX,
        ensures
            final(self).signed_id() == old(self).signed_id() + 1,
            final(self).signed_created() == now,
            final(self).signed_pair().is_matched(),
            final(self).retired_id() == Some(old(self).signed_id()),
            final(self).retired_pair() == Some(old(self).signed_pair()),
            final(self).signed_pair_for(old(self).signed_id()) == Some(old(self).signed_pair()),
            record.key_id == final(self).signed_id(),
            record.public_key@ == final(self).signed_pair().public_bytes(),
            record.created_at == now,
            old(self).identity_sound() ==> record.signed_by(old(self).identity_pair().public_bytes()),
            final(self).identity_pair() == old(self).identity_pair(),
            final(self).pool_ids() == old(self).pool_ids(),
            final(self).pool_pairs() == old(self).pool_pairs(),
            final(self).next_id() == old(self).next_id(),
            final(self).settings() == old(self).settings(),
    {
        let fresh = Curve25519KeyPair::generate();
        self.retired = Some(
            RetiredPreKey { key_id: self.signed_prekey_id, pair: self.signed_prekey.duplicate() },
        );
        self.signed_prekey = fresh;
        self.signed_prekey_id = self.signed_prekey_id + 1;
        self.signed_prekey_created = now;
        self.get_signed_prekey()
    }

    /// Rotates the signed prekey, stamped with the machine's clock.
    pub fn rotate_signed_prekey(&mut self) -> (record: SignedPreKey)
        requires
            old(self).signed_id() < u32::MAX,
        ensures
            final(self).signed_id() == old(self).signed_id() + 1,
            final(self).signed_pair().is_matched(),
            final(self).retired_id() == Some(old(self).signed_id()),
            final(self).retired_pair() == Some(old(self).signed_pair()),
            final(self).signed_pair_for(old(self).signed_id()) == Some(old(self).signed_pair()),
            record.key_id == final(self).signed_id(),
            record.public_key@ == final(self).signed_pair().public_bytes(),
            record.created_at == final(self).signed_created(),
            old(self).identity_sound() ==> record.signed_by(old(self).identity_pair().public_bytes()),
            final(self).identity_pair() == old(self).identity_pair(),
            final(self).pool_ids() == old(self).pool_ids(),
            final(self).pool_pairs() == old(self).pool_pairs(),
            final(self).next_id() == old(self).next_id(),
            final(self).settings() == old(self).settings(),
    {
        let now = unix_time_now();
        self.rotate_signed_prekey_at(now)
    }

    /// The signed prekey pair with the given id: the current one or the one
    /// it replaced.
    pub fn signed_prekey_pair_for(&self, key_id: u32) -> (pair: Option<Curve25519KeyPair>)
        ensures
            pair == self.signed_pair_for(key_id),
    {
        if key_id == self.signed_prekey_id {
            Some(self.signed_prekey.duplicate())
        } else {
            match &self.retired {
                Some(r) => {
                    if r.key_id == key_id {
                        Some(r.pair.duplicate())
                    } else {
                        None
                    }
                },
                None => None,
            }
        }
    }

    /// The number of one-time prekeys in the pool.
    pub fn prekey_count(&self) -> (count: usize)
        ensures
            count == self.pool_ids().len(),
    {
        self.one_time_prekeys.len()
    }

    /// The fingerprint of the identity key.
    pub fn fingerprint(&self) -> (text: String)
        ensures
            text@ == fingerprint_of(self.identity_pair().public_bytes()),
            text@.len() == 16,
    {
        self.identity.fingerprint()
    }

    /// The signed prekey and the pool in their stored form, secrets included.
    pub fn get_stored_prekeys(&self) -> (stored: (StoredPreKey, Vec<StoredPreKey>))
        ensures
            stored.0.key_id == self.signed_id(),
            stored.0.public_key@ == self.signed_pair().public_bytes(),
            stored.0.secret_key@ == self.signed_pair().secret_bytes(),
            stored.0.public_key@.len() == 32,
            stored.0.secret_key@.len() == 32,
            stored.0.is_signed,
            stored.1@.len() == self.pool_ids().len(),
            forall|i: int|
                0 <= i < stored.1@.len() ==> {
                    &&& (#[trigger] stored.1@[i]).key_id == self.pool_ids()[i]
                    &&& stored.1@[i].public_key@ == self.pool_pairs()[i].public_bytes()
                    &&& stored.1@[i].secret_key@ == self.pool_pairs()[i].secret_bytes()
                    &&& stored.1@[i].public_key@.len() == 32
                    &&& stored.1@[i].secret_key@.len() == 32
                    &&& !stored.1@[i].is_signed
                },
    {
        let signed = StoredPreKey::from_keypair(self.signed_prekey_id, &self.signed_prekey, true);
        let mut otks: Vec<StoredPreKey> = Vec::new();
        let mut i: usize = 0;
        while i < self.one_time_prekeys.len()
            invariant
                i <= self.one_time_prekeys@.len(),
                otks@.len() == i,
                forall|k: int|
                    0 <= k < i ==> {
                        &&& (#[trigger] otks@[k]).key_id == self.one_time_prekeys@[k].key_id
                        &&& otks@[k].public_key@ == self.one_time_prekeys@[k].pair.public_bytes()
                        &&& otks@[k].secret_key@ == self.one_time_prekeys@[k].pair.secret_bytes()
                        &&& otks@[k].public_key@.len() == 32
                        &&& otks@[k].secret_key@.len() == 32
                        &&& !otks@[k].is_signed
                    },
            decreases self.one_time_prekeys@.len() - i,
        {
            let entry = &self.one_time_prekeys[i];
            otks.push(StoredPreKey::from_keypair(entry.key_id, &entry.pair, false));
            i += 1;
        }
        (signed, otks)
    }

    /// When the signed prekey was created.
    pub fn signed_prekey_created(&self) -> (created: i64)
        ensures
            created == self.signed_created(),
    {
        self.signed_prekey_created
    }

    /// The id that the next new one-time prekey gets.
    pub fn next_prekey_id(&self) -> (id: u32)
        ensures
            id == self.next_id(),
    {
        self.next_prekey_id
    }

    /// The current signed prekey pair, for answering a handshake.
    pub fn get_signed_prekey_pair(&self) -> (pair: &Curve25519KeyPair)
        ensures
            *pair == self.signed_pair(),
    {
        &self.signed_prekey
    }

    /// The identity key pair.
    pub fn identity(&self) -> (identity: &IdentityKeyPair)
        ensures
            *identity == self.identity_pair(),
    {
        &self.identity
    }

    /// The state of the prekeys at time `now`.
    pub fn status_at(&self, now: i64) -> (status: PreKeyStatus)
        ensures
            status.one_time_prekey_count == self.pool_ids().len(),
            status.needs_replenishment == (self.pool_ids().len()
                < self.settings().min_prekey_count),
            status.needs_rotation == older_than(
                self.signed_created() as int,
                now as int,
                self.settings().signed_prekey_max_age_days as int,
            ),
            status.signed_prekey_age_seconds == age_seconds(self.signed_created() as int, now as int),
            status.fingerprint@ == fingerprint_of(self.identity_pair().public_bytes()),
    {
        let diff: i128 = now as i128 - self.signed_prekey_created as i128;
        let age: i64 = if diff > i64::MAX as i128 {
            i64::MAX
        } else if diff < i64::MIN as i128 {
            i64::MIN
        } else {
            diff as i64
        };
        PreKeyStatus {
            one_time_prekey_count: self.one_time_prekeys.len(),
            needs_replenishment: self.needs_replenishment(),
            needs_rotation: self.needs_signed_prekey_rotation_at(now),
            signed_prekey_age_seconds: age,
            fingerprint: self.fingerprint(),
        }
    }

    /// The state of the prekeys by the machine's clock.
    pub fn status(&self) -> (status: PreKeyStatus)
        ensures
            status.one_time_prekey_count == self.pool_ids().len(),
            status.needs_replenishment == (self.pool_ids().len()
                < self.settings().min_prekey_count),
            status.fingerprint@ == fingerprint_of(self.identity_pair().public_bytes()),
            exists|now: i64|
                {
                    &&& status.needs_rotation == older_than(
                        self.signed_created() as int,
                        now as int,
                        self.settings().signed_prekey_max_age_days as int,
                    )
                    &&& status.signed_prekey_age_seconds == #[trigger] age_seconds(
                        self.signed_created() as int,
                        now as int,
                    )
                },
    {
        let now = unix_time_now();
        self.status_at(now)
    }
}

} // verus!
