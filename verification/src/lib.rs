//! Core of a passphrase-protected local vault.
//!
//! A master passphrase is turned into a 256-bit key by a memory-hard
//! password hash (Argon2id) bound to a random salt; payloads are sealed
//! into an authenticated envelope (AES-256-GCM, base64-coded fields) whose
//! text form carries the ciphertext, the nonce and the salt; an in-memory
//! session holds the derived key and its salt while the vault is unlocked,
//! and the lifecycle operations (initialize, open, login, save, load,
//! logout) are gated on that session.
//!
//! All file and configuration handling lives outside this crate: every
//! function here maps plain values to plain values.
use vstd::prelude::*;

pub mod crypto;
pub mod envelope;
pub mod primitives;
pub mod session;
pub mod vault;

verus! {

/// The closed set of failures the vault core can report.
///
/// `AuthenticationFailed` deliberately covers both a wrong passphrase and a
/// tampered or corrupt ciphertext, so that callers cannot distinguish the
/// two. `NotInitialized`, `PathReadFailed` and `PathWriteFailed` are raised
/// by the I/O layer around this crate; they are defined here so that every
/// vault operation reports one closed error type.
#[derive(Clone, Copy, Debug, PartialEq, Eq, Structural)]
pub enum VaultError {
    InvalidSalt,
    DerivationFailed,
    InvalidEnvelope,
    AuthenticationFailed,
    DecodedTextInvalid,
    NotLoggedIn,
    NotInitialized,
    PathWriteFailed,
    PathReadFailed,
}

impl VaultError {
    /// A short user-facing description of the error.
    pub fn message(&self) -> &'static str {
        match self {
            VaultError::InvalidSalt => "invalid salt",
            VaultError::DerivationFailed => "key derivation failed",
            VaultError::InvalidEnvelope => "invalid data format",
            VaultError::AuthenticationFailed => "incorrect passphrase or corrupted file",
            VaultError::DecodedTextInvalid => "decrypted data is not valid text",
            VaultError::NotLoggedIn => "not logged in",
            VaultError::NotInitialized => "not initialized",
            VaultError::PathWriteFailed => "could not write the vault file",
            VaultError::PathReadFailed => "could not read the vault file",
        }
    }
}

/// Minutes of inactivity after which the surrounding application locks the
/// vault when no explicit timeout is configured.
pub fn default_auto_lock_minutes() -> (r: u32)
    ensures
        r == 5,
{
    5
}

} // verus!
