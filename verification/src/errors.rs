use vstd::prelude::*;

verus! {

/// What can go wrong while sealing or opening an envelope.
#[derive(Clone, Copy, Debug, PartialEq, Eq, Structural)]
pub enum VaultError {
    /// The stored text is not valid in the expected encoding.
    DecodeError,
    /// The decoded bytes are too short to contain a salt and a nonce.
    MalformedEnvelope,
    /// The integrity tag did not verify: wrong passphrase, or tampered or
    /// corrupted data; the two are deliberately not told apart.
    AuthenticationError,
    /// The underlying cipher failed while sealing; fatal and unexpected.
    EncryptionError,
}

/// What can go wrong while working with a time-based code configuration.
#[derive(Clone, Copy, Debug, PartialEq, Eq, Structural)]
pub enum TotpError {
    /// The algorithm name is not one of the supported set.
    UnsupportedAlgorithm,
    /// The shared secret is not valid base32 text.
    BadSecret,
    /// The configuration's field values are out of range.
    InvalidConfig,
    /// The current time could not be read.
    ClockUnavailable,
    /// The provisioning QR image could not be rendered.
    QrUnavailable,
}

} // verus!
