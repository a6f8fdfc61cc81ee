//! The failure type of the cryptographic core.

use vstd::prelude::*;
use vstd::string::*;

verus! {

/// What can go wrong in a cryptographic operation. Each variant carries a
/// short description for logs; callers decide by the variant alone.
#[derive(Debug)]
pub enum CryptoError {
    /// A key could not be generated.
    KeyGenerationFailed(String),
    /// A key has the wrong length or does not decode.
    InvalidKey(String),
    /// A shared secret could not be derived.
    KeyExchangeFailed(String),
    /// The handshake could not be completed.
    X3dhError(String),
    /// The ratchet refused an operation.
    RatchetError(String),
    /// A signature is malformed or does not verify.
    SignatureError(String),
    /// Encryption failed.
    EncryptionError(String),
    /// A message is malformed, fails authentication or lies too far ahead.
    DecryptionError(String),
    /// There is no session with the peer.
    SessionNotFound(String),
    /// Stored state was authentic but does not describe a session or account.
    SessionCorrupted(String),
    /// The peer has published no one-time prekey.
    NoPrekeysAvailable(String),
    /// The backing store failed.
    DatabaseError(String),
    /// A stored blob failed its authenticity check.
    VaultError(String),
    /// A value could not be encoded or decoded.
    SerializationError(String),
    /// The ratchet library reported an error of its own.
    VodozemacError(String),
    /// An invariant of the core was violated.
    InternalError(String),
}

/// Result type of cryptographic operations.
pub type CryptoResult<T> = Result<T, CryptoError>;

impl CryptoError {
    /// The heading under which an error of this variant is reported.
    pub open spec fn heading(self) -> Seq<char> {
        match self {
            CryptoError::KeyGenerationFailed(_) => "Key generation failed: "@,
            CryptoError::InvalidKey(_) => "Invalid key format: "@,
            CryptoError::KeyExchangeFailed(_) => "Key exchange failed: "@,
            CryptoError::X3dhError(_) => "X3DH error: "@,
            CryptoError::RatchetError(_) => "Ratchet error: "@,
            CryptoError::SignatureError(_) => "Signature verification failed: "@,
            CryptoError::EncryptionError(_) => "Encryption failed: "@,
            CryptoError::DecryptionError(_) => "Decryption failed: "@,
            CryptoError::SessionNotFound(_) => "No session found for peer: "@,
            CryptoError::SessionCorrupted(_) => "Session corrupted: "@,
            CryptoError::NoPrekeysAvailable(_) => "No prekeys available for peer: "@,
            CryptoError::DatabaseError(_) => "Database error: "@,
            CryptoError::VaultError(_) => "Vault error: "@,
            CryptoError::SerializationError(_) => "Serialization error: "@,
            CryptoError::VodozemacError(_) => "vodozemac error: "@,
            CryptoError::InternalError(_) => "Internal crypto error: "@,
        }
    }

    /// The description that the error carries.
    pub open spec fn detail(self) -> Seq<char> {
        match self {
            CryptoError::KeyGenerationFailed(s) => s@,
            CryptoError::InvalidKey(s) => s@,
            CryptoError::KeyExchangeFailed(s) => s@,
            CryptoError::X3dhError(s) => s@,
            CryptoError::RatchetError(s) => s@,
            CryptoError::SignatureError(s) => s@,
            CryptoError::EncryptionError(s) => s@,
            CryptoError::DecryptionError(s) => s@,
            CryptoError::SessionNotFound(s) => s@,
            CryptoError::SessionCorrupted(s) => s@,
            CryptoError::NoPrekeysAvailable(s) => s@,
            CryptoError::DatabaseError(s) => s@,
            CryptoError::VaultError(s) => s@,
            CryptoError::SerializationError(s) => s@,
            CryptoError::VodozemacError(s) => s@,
            CryptoError::InternalError(s) => s@,
        }
    }

    /// The text shown for this error: its heading followed by its description.
    pub fn message(&self) -> (text: String)
        ensures
            text@ == self.heading() + self.detail(),
    {
        match self {
            CryptoError::KeyGenerationFailed(s) => String::from_str("Key generation failed: ").concat(s.as_str()),
            CryptoError::InvalidKey(s) => String::from_str("Invalid key format: ").concat(s.as_str()),
            CryptoError::KeyExchangeFailed(s) => String::from_str("Key exchange failed: ").concat(s.as_str()),
            CryptoError::X3dhError(s) => String::from_str("X3DH error: ").concat(s.as_str()),
            CryptoError::RatchetError(s) => String::from_str("Ratchet error: ").concat(s.as_str()),
            CryptoError::SignatureError(s) => String::from_str("Signature verification failed: ").concat(s.as_str()),
            CryptoError::EncryptionError(s) => String::from_str("Encryption failed: ").concat(s.as_str()),
            CryptoError::DecryptionError(s) => String::from_str("Decryption failed: ").concat(s.as_str()),
            CryptoError::SessionNotFound(s) => String::from_str("No session found for peer: ").concat(s.as_str()),
            CryptoError::SessionCorrupted(s) => String::from_str("Session corrupted: ").concat(s.as_str()),
            CryptoError::NoPrekeysAvailable(s) => String::from_str("No prekeys available for peer: ").concat(s.as_str()),
            CryptoError::DatabaseError(s) => String::from_str("Database error: ").concat(s.as_str()),
            CryptoError::VaultError(s) => String::from_str("Vault error: ").concat(s.as_str()),
            CryptoError::SerializationError(s) => String::from_str("Serialization error: ").concat(s.as_str()),
            CryptoError::VodozemacError(s) => String::from_str("vodozemac error: ").concat(s.as_str()),
            CryptoError::InternalError(s) => String::from_str("Internal crypto error: ").concat(s.as_str()),
        }
    }
}

} // verus!
