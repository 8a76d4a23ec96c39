use vstd::prelude::*;
use vstd::utf8::{decode_utf8, encode_utf8, encode_utf8_decode_utf8, encode_utf8_valid_utf8,
    valid_utf8};
use vstd::string::StringSliceAdditionalSpecFns;

use crate::errors::VaultError;
use crate::kdf::{derive_key, key_of, KEY_LEN, SALT_LEN};

verus! {

/// Length in bytes of the random nonce stored with every envelope.
pub const NONCE_LEN: usize = 12;

/// Length in bytes of the authentication tag the cipher appends.
pub const TAG_LEN: usize = 16;

/// The largest plaintext the cipher accepts, in bytes (2^36); a longer one is
/// the only thing that makes sealing fail.
pub const CIPHER_MAX_LEN: u64 = 0x1000000000;

/// The padded standard-alphabet base64 text of a byte string; a deterministic
/// function of the bytes.
pub uninterp spec fn b64_text(data: Seq<u8>) -> Seq<char>;

/// The bytes that a base64 text stands for, or nothing when the text is not
/// valid padded standard-alphabet base64.
pub uninterp spec fn b64_data(text: Seq<u8>) -> Option<Seq<u8>>;

/// The AES-256-GCM ciphertext (tag appended) of a plaintext under a key and
/// nonce; a deterministic function of the three.
pub uninterp spec fn sealed(key: Seq<u8>, nonce: Seq<u8>, plaintext: Seq<u8>) -> Seq<u8>;

/// The plaintext that AES-256-GCM decryption recovers from a ciphertext under
/// a key and nonce, or nothing when the tag does not verify.
pub uninterp spec fn opened(key: Seq<u8>, nonce: Seq<u8>, ciphertext: Seq<u8>) -> Option<Seq<u8>>;

/// The text that lossy UTF-8 decoding makes of a byte string that is not
/// valid UTF-8.
pub uninterp spec fn lossy_decoded(bytes: Seq<u8>) -> Seq<char>;

/// Relies on base64's general_purpose::STANDARD engine: encode renders the
/// bytes as padded standard-alphabet text, and the same engine's decode
/// recovers exactly those bytes from that text.
#[verifier::external_body]
fn b64_encode(data: &[u8]) -> (r: String)
    ensures
        r@ == b64_text(data@),
        b64_data(encode_utf8(r@)) == Some(data@),
{
    base64::Engine::encode(&base64::engine::general_purpose::STANDARD, data)
}

/// Relies on base64's general_purpose::STANDARD engine: decode recovers the
/// bytes a valid text stands for and rejects anything else.
#[verifier::external_body]
pub(crate) fn b64_decode(text: &[u8]) -> (r: Option<Vec<u8>>)
    ensures
        match r {
            Some(d) => b64_data(text@) == Some(d@),
            None => b64_data(text@) is None,
        },
{
    match base64::Engine::decode(&base64::engine::general_purpose::STANDARD, text) {
        Ok(d) => Some(d),
        Err(_) => None,
    }
}

/// Relies on aes_gcm::Aes256Gcm through KeyInit::new and Aead::encrypt: the
/// ciphertext is a deterministic function of key, nonce and plaintext, is the
/// plaintext's length plus the appended 16-byte tag, and is exactly what
/// Aead::decrypt inverts under the same key and nonce.  The call fails only
/// when the plaintext exceeds the cipher's size limit.
#[verifier::external_body]
fn aead_encrypt(key: &[u8], nonce: &[u8], plaintext: &[u8]) -> (r: Option<Vec<u8>>)
    requires
        key@.len() == KEY_LEN,
        nonce@.len() == NONCE_LEN,
    ensures
        match r {
            Some(ct) => {
                &&& ct@ == sealed(key@, nonce@, plaintext@)
                &&& ct@.len() == plaintext@.len() + TAG_LEN
                &&& opened(key@, nonce@, ct@) == Some(plaintext@)
            },
            None => plaintext@.len() > CIPHER_MAX_LEN,
        },
{
    let cipher = <aes_gcm::Aes256Gcm as aes_gcm::aead::KeyInit>::new(
        aes_gcm::Key::<aes_gcm::Aes256Gcm>::from_slice(key),
    );
    match aes_gcm::aead::Aead::encrypt(&cipher, aes_gcm::Nonce::from_slice(nonce), plaintext) {
        Ok(ct) => Some(ct),
        Err(_) => None,
    }
}

/// Relies on aes_gcm::Aes256Gcm through KeyInit::new and Aead::decrypt:
/// returns the plaintext when the appended tag authenticates under the key
/// and nonce, and fails otherwise.
#[verifier::external_body]
fn aead_decrypt(key: &[u8], nonce: &[u8], ciphertext: &[u8]) -> (r: Option<Vec<u8>>)
    requires
        key@.len() == KEY_LEN,
        nonce@.len() == NONCE_LEN,
    ensures
        match r {
            Some(pt) => opened(key@, nonce@, ciphertext@) == Some(pt@),
            None => opened(key@, nonce@, ciphertext@) is None,
        },
{
    let cipher = <aes_gcm::Aes256Gcm as aes_gcm::aead::KeyInit>::new(
        aes_gcm::Key::<aes_gcm::Aes256Gcm>::from_slice(key),
    );
    match aes_gcm::aead::Aead::decrypt(&cipher, aes_gcm::Nonce::from_slice(nonce), ciphertext) {
        Ok(pt) => Some(pt),
        Err(_) => None,
    }
}

/// Relies on rand::thread_rng and RngCore::fill_bytes: fills the buffer from
/// a cryptographically secure generator; nothing is promised of the values.
#[verifier::external_body]
fn random_bytes(len: usize) -> (r: Vec<u8>)
    ensures
        r@.len() == len,
{
    let mut buf = vec![0u8; len];
    rand::RngCore::fill_bytes(&mut rand::thread_rng(), &mut buf);
    buf
}

/// Relies on String::from_utf8_lossy: valid UTF-8 bytes decode to their own
/// text, and anything else to the replacement-character text named above.
#[verifier::external_body]
fn utf8_lossy(bytes: &[u8]) -> (r: String)
    ensures
        r@ == (if valid_utf8(bytes@) {
            decode_utf8(bytes@)
        } else {
            lossy_decoded(bytes@)
        }),
{
    String::from_utf8_lossy(bytes).into_owned()
}

/// The salt region of a decoded envelope: the first SALT_LEN bytes.
pub open spec fn salt_region(data: Seq<u8>) -> Seq<u8> {
    data.subrange(0, SALT_LEN as int)
}

/// The nonce region of a decoded envelope: the NONCE_LEN bytes after the salt.
pub open spec fn nonce_region(data: Seq<u8>) -> Seq<u8> {
    data.subrange(SALT_LEN as int, SALT_LEN + NONCE_LEN)
}

/// The ciphertext region of a decoded envelope: everything after the nonce.
pub open spec fn cipher_region(data: Seq<u8>) -> Seq<u8> {
    data.subrange(SALT_LEN + NONCE_LEN, data.len() as int)
}

/// What opening a stored envelope under a passphrase yields, as a function of
/// the stored bytes: the recovered text, or the first error on the way there
/// (not valid base64; too short for a salt and nonce; tag did not verify).
pub open spec fn decrypt_spec(encoded: Seq<u8>, passphrase: Seq<char>) -> Result<Seq<char>, VaultError> {
    match b64_data(encoded) {
        None => Err(VaultError::DecodeError),
        Some(data) => {
            if data.len() < SALT_LEN + NONCE_LEN {
                Err(VaultError::MalformedEnvelope)
            } else {
                let key = key_of(encode_utf8(passphrase), salt_region(data));
                match opened(key, nonce_region(data), cipher_region(data)) {
                    None => Err(VaultError::AuthenticationError),
                    Some(pt) => Ok(
                        if valid_utf8(pt) {
                            decode_utf8(pt)
                        } else {
                            lossy_decoded(pt)
                        },
                    ),
                }
            }
        },
    }
}

/// Opens a stored envelope: decodes the text, splits salt, nonce and
/// ciphertext by fixed offsets, re-derives the key from the passphrase and
/// the stored salt, and runs authenticated decryption.  Returns exactly what
/// `decrypt_spec` says for these inputs, error for error.
pub fn decrypt_mnemonic(encoded: &[u8], passphrase: &str) -> (r: Result<String, VaultError>)
    ensures
        match r {
            Ok(pt) => decrypt_spec(encoded@, passphrase@) == Ok::<Seq<char>, VaultError>(pt@),
            Err(e) => decrypt_spec(encoded@, passphrase@) == Err::<Seq<char>, VaultError>(e),
        },
{
    let data = match b64_decode(encoded) {
        Some(d) => d,
        None => {
            return Err(VaultError::DecodeError);
        },
    };
    if data.len() < SALT_LEN + NONCE_LEN {
        return Err(VaultError::MalformedEnvelope);
    }
    let ds = data.as_slice();
    let salt = &ds[0..SALT_LEN];
    let nonce = &ds[SALT_LEN..SALT_LEN + NONCE_LEN];
    let ct = &ds[SALT_LEN + NONCE_LEN..data.len()];
    proof {
        assert(salt@ =~= salt_region(data@));
        assert(nonce@ =~= nonce_region(data@));
        assert(ct@ =~= cipher_region(data@));
    }
    let key = derive_key(passphrase.as_bytes(), salt);
    match aead_decrypt(key.as_slice(), nonce, ct) {
        Some(pt) => Ok(utf8_lossy(pt.as_slice())),
        None => Err(VaultError::AuthenticationError),
    }
}

/// Seals a mnemonic under a passphrase: draws a fresh random salt and nonce,
/// derives the key, runs authenticated encryption, frames
/// salt || nonce || ciphertext and renders the blob as base64 text.  The
/// contract carries the round trip (opening the returned text under the same
/// passphrase yields the mnemonic back), fixes the framed blob's length, and
/// owes success to every mnemonic the cipher accepts: only one beyond the
/// cipher's size limit fails, and then with the encryption error alone.
pub fn encrypt_mnemonic(mnemonic: &str, passphrase: &str) -> (r: Result<String, VaultError>)
    ensures
        match r {
            Ok(enc) => {
                &&& decrypt_spec(encode_utf8(enc@), passphrase@) == Ok::<
                    Seq<char>,
                    VaultError,
                >(mnemonic@)
                &&& b64_data(encode_utf8(enc@)) matches Some(d) && d.len() == SALT_LEN + NONCE_LEN
                    + encode_utf8(mnemonic@).len() + TAG_LEN
            },
            Err(e) => {
                &&& e == VaultError::EncryptionError
                &&& encode_utf8(mnemonic@).len() > CIPHER_MAX_LEN
            },
        },
{
    let salt = random_bytes(SALT_LEN);
    let nonce = random_bytes(NONCE_LEN);
    let key = derive_key(passphrase.as_bytes(), salt.as_slice());
    let ct = match aead_encrypt(key.as_slice(), nonce.as_slice(), mnemonic.as_bytes()) {
        Some(ct) => ct,
        None => {
            return Err(VaultError::EncryptionError);
        },
    };
    let mut blob: Vec<u8> = Vec::new();
    blob.extend_from_slice(salt.as_slice());
    blob.extend_from_slice(nonce.as_slice());
    blob.extend_from_slice(ct.as_slice());
    let enc = b64_encode(blob.as_slice());
    proof {
        let data = blob@;
        assert(data =~= salt@ + nonce@ + ct@);
        assert(salt_region(data) =~= salt@);
        assert(nonce_region(data) =~= nonce@);
        assert(cipher_region(data) =~= ct@);
        encode_utf8_valid_utf8(mnemonic@);
        encode_utf8_decode_utf8(mnemonic@);
    }
    Ok(enc)
}

} // verus!
