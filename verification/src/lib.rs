//! A passphrase-protected mnemonic vault.
//!
//! The library covers the secret-at-rest protection and access-gate core:
//! key derivation from a passphrase and salt, the authenticated envelope
//! codec that seals a mnemonic into a portable text blob and opens it again,
//! the repository's name-to-path rules, and the two-branch challenge gate
//! that must pass before a decryption attempt is offered.

pub mod errors;
pub mod gate;
pub mod kdf;
pub mod storage;
pub mod text;
pub mod totp;
pub mod vault;
