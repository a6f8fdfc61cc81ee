//! X3DH: asynchronous key agreement.
//!
//! The responder publishes a prekey bundle. The initiator verifies it, draws
//! an ephemeral key and combines up to four Diffie-Hellman results into a
//! 32-byte secret; the responder repeats the computation from its own side.
//!
//! ```text
//! DH1 = DH(IK_A, SPK_B)    DH2 = DH(EK_A, IK_B)
//! DH3 = DH(EK_A, SPK_B)    DH4 = DH(EK_A, OPK_B)   (if a one-time prekey is used)
//! SK  = HKDF-SHA256(no salt, 32 x 0xFF || DH1 || DH2 || DH3 [|| DH4], "NoChat X3DH v1")
//! ```
//!
//! Identity keys are Ed25519; for Diffie-Hellman each is taken to Curve25519:
//! the secret by hashing and clamping, the public by the birational map.

use vstd::prelude::*;
use vstd::slice::slice_subrange;
use vstd::array::array_as_slice;
use vstd::string::*;
use crate::bytes::{append_bytes, array32_from_slice, vec_from_array32};
use crate::errors::{CryptoError, CryptoResult};
use crate::keys::{
    lemma_curve_key_lengths, Curve25519KeyPair, IdentityKeyPair, OneTimePreKey, SignedPreKey,
};
use crate::primitives::{
    ed25519_check_key, ed25519_key_valid, edwards_to_montgomery, hkdf_sha256, hkdf_sha256_32,
    montgomery_of_edwards, sha512, sha512_digest, x25519, x25519_public,
};

pub use crate::primitives::{clamped, curve_secret_of_seed, first_half};

verus! {

/// The info string of the key derivation: the ASCII bytes of
/// `NoChat X3DH v1`.
pub open spec fn x3dh_info() -> Seq<u8> {
    seq![78u8, 111u8, 67u8, 104u8, 97u8, 116u8, 32u8, 88u8, 51u8, 68u8, 72u8, 32u8, 118u8, 49u8]
}

/// The 32 bytes of `0xFF` that open the key material.
pub open spec fn x3dh_padding() -> Seq<u8> {
    Seq::new(32, |i: int| 0xFFu8)
}

/// The input key material: padding, then the Diffie-Hellman results in order.
pub open spec fn x3dh_ikm(dh1: Seq<u8>, dh2: Seq<u8>, dh3: Seq<u8>, dh4: Option<Seq<u8>>) -> Seq<u8> {
    let with_three = x3dh_padding() + dh1 + dh2 + dh3;
    match dh4 {
        Some(d) => with_three + d,
        None => with_three,
    }
}

/// The shared secret derived from the Diffie-Hellman results.
pub open spec fn x3dh_secret(dh1: Seq<u8>, dh2: Seq<u8>, dh3: Seq<u8>, dh4: Option<Seq<u8>>) -> Seq<u8> {
    hkdf_sha256_32(None, x3dh_ikm(dh1, dh2, dh3, dh4), x3dh_info())
}

/// The secret as the initiator computes it, from its identity's Curve25519
/// secret, its ephemeral secret and the responder's public keys.
pub open spec fn initiator_secret(
    identity_curve_secret: Seq<u8>,
    ephemeral_secret: Seq<u8>,
    their_identity_curve: Seq<u8>,
    their_signed_prekey: Seq<u8>,
    their_one_time_prekey: Option<Seq<u8>>,
) -> Seq<u8> {
    x3dh_secret(
        x25519(identity_curve_secret, their_signed_prekey),
        x25519(ephemeral_secret, their_identity_curve),
        x25519(ephemeral_secret, their_signed_prekey),
        match their_one_time_prekey {
            Some(k) => Some(x25519(ephemeral_secret, k)),
            None => None,
        },
    )
}

/// The secret as the responder computes it, from its own secrets and the
/// initiator's public keys.
pub open spec fn responder_secret(
    identity_curve_secret: Seq<u8>,
    signed_prekey_secret: Seq<u8>,
    one_time_prekey_secret: Option<Seq<u8>>,
    their_identity_curve: Seq<u8>,
    their_ephemeral: Seq<u8>,
) -> Seq<u8> {
    x3dh_secret(
        x25519(signed_prekey_secret, their_identity_curve),
        x25519(identity_curve_secret, their_ephemeral),
        x25519(signed_prekey_secret, their_ephemeral),
        match one_time_prekey_secret {
            Some(s) => Some(x25519(s, their_ephemeral)),
            None => None,
        },
    )
}

/// Both sides derive the same secret whenever each of the Diffie-Hellman
/// exchanges gives both sides the same bytes. That an exchange does so for
/// matched key pairs is what `Curve25519KeyPair::diffie_hellman` states;
/// `x3dh_respond` draws the conclusion for the keys it is given.
pub proof fn lemma_x3dh_agreement(
    a_identity_secret: Seq<u8>,
    a_identity_public: Seq<u8>,
    a_ephemeral_secret: Seq<u8>,
    a_ephemeral_public: Seq<u8>,
    b_identity_secret: Seq<u8>,
    b_identity_public: Seq<u8>,
    b_signed_secret: Seq<u8>,
    b_signed_public: Seq<u8>,
    with_one_time: bool,
    b_one_time_secret: Seq<u8>,
    b_one_time_public: Seq<u8>,
)
    requires
        x25519(a_identity_secret, b_signed_public) == x25519(b_signed_secret, a_identity_public),
        x25519(a_ephemeral_secret, b_identity_public) == x25519(
            b_identity_secret,
            a_ephemeral_public,
        ),
        x25519(a_ephemeral_secret, b_signed_public) == x25519(b_signed_secret, a_ephemeral_public),
        with_one_time ==> x25519(a_ephemeral_secret, b_one_time_public) == x25519(
            b_one_time_secret,
            a_ephemeral_public,
        ),
    ensures
        initiator_secret(
            a_identity_secret,
            a_ephemeral_secret,
            b_identity_public,
            b_signed_public,
            if with_one_time {
                Some(b_one_time_public)
            } else {
                None
            },
        ) == responder_secret(
            b_identity_secret,
            b_signed_secret,
            if with_one_time {
                Some(b_one_time_secret)
            } else {
                None
            },
            a_identity_public,
            a_ephemeral_public,
        ),
{
}

/// What the initiator gets from the handshake.
#[derive(Debug)]
pub struct X3dhResult {
    /// The derived shared secret.
    pub shared_secret: [u8; 32],
    /// The ephemeral public key to send to the responder.
    pub ephemeral_public: Vec<u8>,
    /// The id of the one-time prekey that was used, if any.
    pub used_one_time_prekey: Option<u32>,
}

/// A peer's published prekey bundle.
#[derive(Debug, Clone)]
pub struct PreKeyBundle {
    /// The peer's identity public key (Ed25519).
    pub identity_key: Vec<u8>,
    /// The peer's signed prekey.
    pub signed_prekey: SignedPreKey,
    /// A one-time prekey, if the peer had one left.
    pub one_time_prekey: Option<OneTimePreKey>,
}

/// What the initiator sends along with its first message.
#[derive(Debug, Clone)]
pub struct X3dhHeader {
    /// Initiator's identity public key.
    pub identity_key: Vec<u8>,
    /// Initiator's ephemeral public key.
    pub ephemeral_key: Vec<u8>,
    /// Id of the signed prekey that was used.
    pub signed_prekey_id: u32,
    /// Id of the one-time prekey that was used, if any.
    pub one_time_prekey_id: Option<u32>,
}

impl PreKeyBundle {
    /// The identity key is 32 bytes that decode to an Ed25519 public key.
    pub open spec fn identity_acceptable(&self) -> bool {
        self.identity_key@.len() == 32 && ed25519_key_valid(self.identity_key@)
    }

    /// The signed prekey carries a signature of the bundle's identity.
    pub open spec fn is_authentic(&self) -> bool {
        self.identity_acceptable() && self.signed_prekey.signed_by(self.identity_key@)
    }

    /// Everything the initiator needs is present and well formed: the bundle
    /// is authentic, the identity maps to Curve25519, and each prekey is 32
    /// bytes.
    pub open spec fn is_usable(&self) -> bool {
        &&& self.is_authentic()
        &&& self.signed_prekey.public_key@.len() == 32
        &&& montgomery_of_edwards(self.identity_key@) is Some
        &&& (self.one_time_prekey is Some ==> self.one_time_prekey->0.public_key@.len() == 32)
    }

    /// The bundle is authentic and each prekey in it is 32 bytes.
    pub open spec fn is_complete(&self) -> bool {
        &&& self.is_authentic()
        &&& self.signed_prekey.public_key@.len() == 32
        &&& (self.one_time_prekey is Some ==> self.one_time_prekey->0.public_key@.len() == 32)
    }

    /// The public key of the one-time prekey, if the bundle has one.
    pub open spec fn one_time_public(&self) -> Option<Seq<u8>> {
        match self.one_time_prekey {
            Some(k) => Some(k.public_key@),
            None => None,
        }
    }

    /// The id of the one-time prekey, if the bundle has one.
    pub open spec fn one_time_id(&self) -> Option<u32> {
        match self.one_time_prekey {
            Some(k) => Some(k.key_id),
            None => None,
        }
    }

    /// The identity key, checked.
    pub fn get_identity_key(&self) -> (r: CryptoResult<[u8; 32]>)
        ensures
            r is Ok <==> self.identity_acceptable(),
            r is Ok ==> r->Ok_0@ == self.identity_key@,
            r is Ok ==> montgomery_of_edwards(self.identity_key@) is Some,
            r is Err ==> r->Err_0 is InvalidKey,
    {
        let key = match array32_from_slice(self.identity_key.as_slice()) {
            Some(k) => k,
            None => {
                return Err(CryptoError::InvalidKey(String::from_str("Identity key must be 32 bytes")));
            },
        };
        if !ed25519_check_key(&key) {
            return Err(CryptoError::InvalidKey(String::from_str("Invalid identity key in bundle")));
        }
        Ok(key)
    }

    /// Checks that the signed prekey is signed by the bundle's identity.
    pub fn verify(&self) -> (r: CryptoResult<()>)
        ensures
            r is Ok <==> self.is_authentic(),
            r is Err ==> (r->Err_0 is InvalidKey <==> !self.identity_acceptable()),
            r is Err ==> (r->Err_0 is SignatureError <==> self.identity_acceptable()),
    {
        let identity_key = match self.get_identity_key() {
            Ok(k) => k,
            Err(e) => {
                return Err(e);
            },
        };
        self.signed_prekey.verify(&identity_key)
    }
}

/// Combines the Diffie-Hellman results into the shared secret.
pub fn kdf_x3dh(dh1: &[u8; 32], dh2: &[u8; 32], dh3: &[u8; 32], dh4: Option<&[u8; 32]>) -> (r: CryptoResult<[u8; 32]>)
    ensures
        r is Ok,
        r->Ok_0@ == x3dh_secret(
            dh1@,
            dh2@,
            dh3@,
            match dh4 {
                Some(d) => Some(d@),
                None => None,
            },
        ),
{
    let padding: [u8; 32] = [0xFFu8; 32];
    let mut input: Vec<u8> = vec_from_array32(&padding);
    assert(input@ =~= x3dh_padding());
    append_bytes(&mut input, array_as_slice(dh1));
    append_bytes(&mut input, array_as_slice(dh2));
    append_bytes(&mut input, array_as_slice(dh3));
    match dh4 {
        Some(d) => {
            append_bytes(&mut input, array_as_slice(d));
        },
        None => {},
    }
    let info: [u8; 14] = [78u8, 111u8, 67u8, 104u8, 97u8, 116u8, 32u8, 88u8, 51u8, 68u8, 72u8, 32u8, 118u8, 49u8];
    assert(info@ =~= x3dh_info());
    match hkdf_sha256(None, input.as_slice(), array_as_slice(&info)) {
        Some(output) => Ok(output),
        None => Err(CryptoError::KeyExchangeFailed(String::from_str("HKDF expansion failed"))),
    }
}

/// The Curve25519 key pair of an Ed25519 secret key. The seed is the first
/// 32 bytes of what is given; anything shorter is refused.
pub fn convert_ed25519_to_curve25519_secret(ed_secret: &[u8]) -> (r: CryptoResult<Curve25519KeyPair>)
    ensures
        r is Ok <==> ed_secret@.len() >= 32,
        r is Ok ==> r->Ok_0.secret_bytes() == curve_secret_of_seed(ed_secret@.subrange(0, 32))
            && r->Ok_0.is_matched(),
        r is Err ==> r->Err_0 is InvalidKey,
{
    if ed_secret.len() < 32 {
        return Err(CryptoError::InvalidKey(String::from_str("Ed25519 secret key too short")));
    }
    let seed = slice_subrange(ed_secret, 0, 32);
    let hash = sha512(seed);
    let half = array32_from_slice(slice_subrange(array_as_slice(&hash), 0, 32));
    let mut curve_secret: [u8; 32] = half.unwrap();
    let ghost unclamped = curve_secret@;
    assert(unclamped =~= first_half(hash@));
    curve_secret[0] = curve_secret[0] & 248;
    curve_secret[31] = curve_secret[31] & 127;
    curve_secret[31] = curve_secret[31] | 64;
    assert(curve_secret@ =~= clamped(unclamped));
    Ok(Curve25519KeyPair::from_secret(curve_secret))
}

/// The Curve25519 public key of an Ed25519 public key: the Montgomery
/// u-coordinate of its point. Bytes that encode no point are refused.
pub fn convert_ed25519_to_curve25519_public(ed_public: &[u8; 32]) -> (r: CryptoResult<[u8; 32]>)
    ensures
        r is Ok <==> montgomery_of_edwards(ed_public@) is Some,
        r is Ok ==> Some(r->Ok_0@) == montgomery_of_edwards(ed_public@),
        r is Err ==> r->Err_0 is InvalidKey,
{
    match edwards_to_montgomery(ed_public) {
        Some(u) => Ok(u),
        None => Err(CryptoError::InvalidKey(String::from_str("Failed to decompress Ed25519 public key"))),
    }
}

/// The initiator's side with a given ephemeral key pair.
///
/// Succeeds exactly on usable bundles, which are the authentic bundles with
/// prekeys of 32 bytes: an identity key that verifies signatures has a
/// Curve25519 form. A bundle whose identity key is acceptable but whose
/// signature does not verify is a signature error; every other defect is an
/// invalid key.
pub fn x3dh_initiate_with(our_identity: &IdentityKeyPair, their_bundle: &PreKeyBundle, ephemeral: &Curve25519KeyPair) -> (r: CryptoResult<X3dhResult>)
    ensures
        r is Ok <==> their_bundle.is_usable(),
        r is Ok <==> their_bundle.is_complete(),
        r is Ok ==> {
            &&& r->Ok_0.shared_secret@ == initiator_secret(
                curve_secret_of_seed(our_identity.secret_bytes()),
                ephemeral.secret_bytes(),
                montgomery_of_edwards(their_bundle.identity_key@)->0,
                their_bundle.signed_prekey.public_key@,
                their_bundle.one_time_public(),
            )
            &&& r->Ok_0.ephemeral_public@ == ephemeral.public_bytes()
            &&& r->Ok_0.ephemeral_public@.len() == 32
            &&& r->Ok_0.used_one_time_prekey == their_bundle.one_time_id()
        },
        r is Err ==> (r->Err_0 is SignatureError <==> their_bundle.identity_acceptable()
            && !their_bundle.is_authentic()),
        r is Err ==> (r->Err_0 is InvalidKey <==> !(their_bundle.identity_acceptable()
            && !their_bundle.is_authentic())),
{
    match their_bundle.verify() {
        Ok(()) => {},
        Err(e) => {
            return Err(e);
        },
    }
    let their_identity = match their_bundle.get_identity_key() {
        Ok(k) => k,
        Err(e) => {
            return Err(e);
        },
    };
    let their_signed_prekey = match their_bundle.signed_prekey.get_public_key() {
        Ok(k) => k,
        Err(e) => {
            return Err(e);
        },
    };
    let our_secret = our_identity.secret_key_bytes();
    assert(our_secret@.subrange(0, 32) =~= our_secret@);
    let our_identity_curve = match convert_ed25519_to_curve25519_secret(our_secret.as_slice()) {
        Ok(p) => p,
        Err(e) => {
            return Err(e);
        },
    };
    let dh1 = our_identity_curve.diffie_hellman(&their_signed_prekey);
    let their_identity_curve = match convert_ed25519_to_curve25519_public(&their_identity) {
        Ok(k) => k,
        Err(e) => {
            return Err(e);
        },
    };
    let dh2 = ephemeral.diffie_hellman(&their_identity_curve);
    let dh3 = ephemeral.diffie_hellman(&their_signed_prekey);
    let shared = match &their_bundle.one_time_prekey {
        Some(otk) => {
            let their_otk = match otk.get_public_key() {
                Ok(k) => k,
                Err(e) => {
                    return Err(e);
                },
            };
            let dh4 = ephemeral.diffie_hellman(&their_otk);
            kdf_x3dh(&dh1, &dh2, &dh3, Some(&dh4))
        },
        None => kdf_x3dh(&dh1, &dh2, &dh3, None),
    };
    let used_one_time_prekey = match &their_bundle.one_time_prekey {
        Some(otk) => Some(otk.key_id),
        None => None,
    };
    match shared {
        Ok(shared_secret) => Ok(
            X3dhResult {
                shared_secret,
                ephemeral_public: ephemeral.public_key_bytes(),
                used_one_time_prekey,
            },
        ),
        Err(e) => Err(e),
    }
}

/// The initiator's side: verifies the bundle, draws a fresh ephemeral key and
/// derives the shared secret.
///
/// Whether it succeeds is decided by the bundle alone. On success the result
/// is what `x3dh_initiate_with` gives for some matched ephemeral key pair.
pub fn x3dh_initiate(our_identity: &IdentityKeyPair, their_bundle: &PreKeyBundle) -> (r: CryptoResult<X3dhResult>)
    ensures
        r is Ok <==> their_bundle.is_usable(),
        r is Ok <==> their_bundle.is_complete(),
        r is Ok ==> exists|ephemeral_secret: Seq<u8>|
            {
                &&& r->Ok_0.shared_secret@ == #[trigger] initiator_secret(
                    curve_secret_of_seed(our_identity.secret_bytes()),
                    ephemeral_secret,
                    montgomery_of_edwards(their_bundle.identity_key@)->0,
                    their_bundle.signed_prekey.public_key@,
                    their_bundle.one_time_public(),
                )
                &&& r->Ok_0.ephemeral_public@ == x25519_public(ephemeral_secret)
                &&& ephemeral_secret.len() == 32
            },
        r is Ok ==> r->Ok_0.ephemeral_public@.len() == 32,
        r is Ok ==> r->Ok_0.used_one_time_prekey == their_bundle.one_time_id(),
        r is Err ==> (r->Err_0 is SignatureError <==> their_bundle.identity_acceptable()
            && !their_bundle.is_authentic()),
        r is Err ==> (r->Err_0 is InvalidKey <==> !(their_bundle.identity_acceptable()
            && !their_bundle.is_authentic())),
{
    let ephemeral = Curve25519KeyPair::generate();
    proof {
        lemma_curve_key_lengths(ephemeral);
    }
    x3dh_initiate_with(our_identity, their_bundle, &ephemeral)
}

/// The responder's side: the mirror computation from its own secrets and the
/// initiator's identity and ephemeral public keys.
///
/// Succeeds exactly when the initiator's identity key maps to Curve25519.
/// With matched prekeys the secret is the initiator's: whatever 32-byte
/// secrets lie behind the initiator's ephemeral key and behind the
/// Curve25519 image of its identity, the result is what the initiator
/// derives with them from our public keys, our identity taken as the public
/// key of its converted secret.
pub fn x3dh_respond(
    our_identity: &IdentityKeyPair,
    our_signed_prekey: &Curve25519KeyPair,
    our_one_time_prekey: Option<&Curve25519KeyPair>,
    their_identity: &[u8; 32],
    their_ephemeral: &[u8; 32],
) -> (r: CryptoResult<[u8; 32]>)
    ensures
        r is Ok <==> montgomery_of_edwards(their_identity@) is Some,
        r is Ok ==> r->Ok_0@ == responder_secret(
            curve_secret_of_seed(our_identity.secret_bytes()),
            our_signed_prekey.secret_bytes(),
            match our_one_time_prekey {
                Some(k) => Some(k.secret_bytes()),
                None => None,
            },
            montgomery_of_edwards(their_identity@)->0,
            their_ephemeral@,
        ),
        r is Ok && our_signed_prekey.is_matched() && (our_one_time_prekey is Some
            ==> our_one_time_prekey->0.is_matched()) ==> forall|
            initiator_identity: Seq<u8>,
            ephemeral: Seq<u8>,
        |
            #![trigger x25519_public(initiator_identity), x25519_public(ephemeral)]
            initiator_identity.len() == 32 && ephemeral.len() == 32 && their_ephemeral@
                == x25519_public(ephemeral) && montgomery_of_edwards(their_identity@) == Some(
                x25519_public(initiator_identity),
            ) ==> r->Ok_0@ == initiator_secret(
                initiator_identity,
                ephemeral,
                x25519_public(curve_secret_of_seed(our_identity.secret_bytes())),
                our_signed_prekey.public_bytes(),
                match our_one_time_prekey {
                    Some(k) => Some(k.public_bytes()),
                    None => None,
                },
            ),
        r is Err ==> r->Err_0 is InvalidKey,
{
    let their_identity_curve = match convert_ed25519_to_curve25519_public(their_identity) {
        Ok(k) => k,
        Err(e) => {
            return Err(e);
        },
    };
    let dh1 = our_signed_prekey.diffie_hellman(&their_identity_curve);
    let our_secret = our_identity.secret_key_bytes();
    assert(our_secret@.subrange(0, 32) =~= our_secret@);
    let our_identity_curve = match convert_ed25519_to_curve25519_secret(our_secret.as_slice()) {
        Ok(p) => p,
        Err(e) => {
            return Err(e);
        },
    };
    let dh2 = our_identity_curve.diffie_hellman(their_ephemeral);
    let dh3 = our_signed_prekey.diffie_hellman(their_ephemeral);
    match our_one_time_prekey {
        Some(otk) => {
            let dh4 = otk.diffie_hellman(their_ephemeral);
            kdf_x3dh(&dh1, &dh2, &dh3, Some(&dh4))
        },
        None => kdf_x3dh(&dh1, &dh2, &dh3, None),
    }
}

} // verus!
