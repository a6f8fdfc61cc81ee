//! End-to-end encryption core of a secure messaging client.
//!
//! Two parties agree on a root secret with the X3DH handshake and then talk
//! through a Double Ratchet session. The modules, leaves first:
//!
//! - `errors`: the failure type every operation returns
//! - `primitives`: the calls into the cryptographic crates, each with the
//!   contract that the rest of the library relies on
//! - `keys`: identity keys, Curve25519 key pairs and prekey records
//! - `prekeys`: lifecycle of signed and one-time prekeys
//! - `x3dh`: the handshake on both sides
//! - `ratchet`: accounts, sessions and the per-message wire form
//! - `sessions`: pickle keys, sealed blobs and the stored form of key rows
//! - `service`: the envelope and the decisions of the service façade
//! - `pending`: links kept until the host can take them

pub mod errors;
pub mod bytes;
pub mod lookup;
pub mod primitives;
pub mod encoding;
pub mod keys;
pub mod x3dh;
pub mod prekeys;
pub mod olm;
pub mod sessions;
pub mod ratchet;
pub mod pickle;
pub mod service;
pub mod pending;

pub use errors::{CryptoError, CryptoResult};
pub use keys::{Curve25519KeyPair, IdentityKeyPair, OneTimePreKey, SignedPreKey};
pub use prekeys::PreKeyManager;
pub use ratchet::RatchetSession;
pub use service::CryptoService;
pub use pending::{store_pending_deep_link, take_pending_deep_links};
pub use x3dh::{x3dh_initiate, x3dh_respond, PreKeyBundle, X3dhResult};
