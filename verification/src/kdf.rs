use vstd::prelude::*;

verus! {

/// Length in bytes of the random salt stored with every envelope.
pub const SALT_LEN: usize = 16;

/// Length in bytes of the derived symmetric key.
pub const KEY_LEN: usize = 32;

/// Fixed iteration count of the password-based derivation.
pub const PBKDF2_ROUNDS: u32 = 100000;

/// The PBKDF2-HMAC-SHA256 output stream for a password, salt, round count and
/// output length; a deterministic function of its arguments.
pub uninterp spec fn pbkdf2_key(password: Seq<u8>, salt: Seq<u8>, rounds: u32, out_len: usize) -> Seq<u8>;

/// Relies on pbkdf2::pbkdf2_hmac with sha2::Sha256: fills the output buffer
/// with PBKDF2-HMAC-SHA256 key material, the same bytes for the same
/// password, salt, round count and output length on every call.
#[verifier::external_body]
fn pbkdf2_sha256(password: &[u8], salt: &[u8], rounds: u32, out_len: usize) -> (r: Vec<u8>)
    requires
        rounds >= 1,
    ensures
        r@ == pbkdf2_key(password@, salt@, rounds, out_len),
        r@.len() == out_len,
{
    let mut buf = vec![0u8; out_len];
    pbkdf2::pbkdf2_hmac::<sha2::Sha256>(password, salt, rounds, &mut buf);
    buf
}

/// The symmetric key that guards one envelope: the derivation's output at the
/// fixed round count and key length.
pub open spec fn key_of(passphrase: Seq<u8>, salt: Seq<u8>) -> Seq<u8> {
    pbkdf2_key(passphrase, salt, PBKDF2_ROUNDS, KEY_LEN)
}

/// Turns a passphrase and a fresh random salt into the fixed-length symmetric
/// key; deterministic, so the same pair later re-derives the same key.
pub fn derive_key(passphrase: &[u8], salt: &[u8]) -> (r: Vec<u8>)
    requires
        salt@.len() == SALT_LEN,
    ensures
        r@ == key_of(passphrase@, salt@),
        r@.len() == KEY_LEN,
{
    pbkdf2_sha256(passphrase, salt, PBKDF2_ROUNDS, KEY_LEN)
}

} // verus!
