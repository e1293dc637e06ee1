//! The closed set of failures that a request can end in.

use vstd::prelude::*;
use vstd::string::StringSliceAdditionalSpecFns;
use crate::text::{has_prefix, starts_with};

verus! {

/// Why a request was refused. Every failure is a local validation failure:
/// the same input gives the same error again.
#[derive(Clone, Copy, Debug, PartialEq, Eq, Structural)]
pub enum SignerError {
    /// The entropy is not hexadecimal or encodes an unsupported number of bytes.
    InvalidEntropy,
    /// The mnemonic has an unknown word, a wrong length or a wrong checksum.
    InvalidMnemonic,
    /// The network tag is not recognized.
    InvalidNetwork,
    /// No master key has been established yet.
    KeyNotInitialized,
    /// The child index lies outside the range of normal derivation.
    DerivationOverflow,
    /// The hash does not encode exactly 32 bytes.
    InvalidHashLength,
    /// The key derived at the index is not the expected signer key.
    SignerMismatch,
    /// The event identifier is empty.
    InvalidEventId,
    /// The number of outcomes or sighashes differs from the number of CETs.
    CountMismatch { expected: u64, actual: u64 },
    /// The number of nonce points differs from the number of digits.
    NonceCountMismatch { expected: u64, actual: u64 },
    /// The digit template or an outcome digit string does not have one
    /// position per digit.
    DigitCountMismatch,
    /// The oracle public key is not a valid point encoding.
    InvalidOraclePubkey,
    /// A public key or nonce is not a valid point encoding.
    InvalidPoint,
    /// A field holds characters that its encoding does not allow.
    InvalidInputEncoding,
    /// An adaptor point could not be built (degenerate sum of points).
    AdaptorConstructionFailure,
    /// The curve code failed in a way that validation did not foresee.
    InternalCurveError,
}

/// What a message of the curve library means, with `fallback` for a message
/// that matches none of the known openings.
pub open spec fn classify_spec(msg: Seq<u8>, fallback: SignerError) -> SignerError {
    if has_prefix(msg, "Library not initialized!".spec_bytes()) || has_prefix(
        msg,
        "HDWalletStorage not initialized!".spec_bytes(),
    ) {
        SignerError::KeyNotInitialized
    } else if has_prefix(msg, "Signer pubkey mismatch".spec_bytes()) {
        SignerError::SignerMismatch
    } else if has_prefix(msg, "Invalid network".spec_bytes()) {
        SignerError::InvalidNetwork
    } else if has_prefix(msg, "Failed to parse oracle pubkey".spec_bytes()) {
        SignerError::InvalidOraclePubkey
    } else if has_prefix(msg, "Failed to parse".spec_bytes()) {
        SignerError::InvalidPoint
    } else {
        fallback
    }
}

/// Maps a message of the curve library to an error of this library.
pub fn classify(msg: &[u8], fallback: SignerError) -> (e: SignerError)
    ensures
        e == classify_spec(msg@, fallback),
{
    if starts_with(msg, "Library not initialized!".as_bytes()) || starts_with(
        msg,
        "HDWalletStorage not initialized!".as_bytes(),
    ) {
        SignerError::KeyNotInitialized
    } else if starts_with(msg, "Signer pubkey mismatch".as_bytes()) {
        SignerError::SignerMismatch
    } else if starts_with(msg, "Invalid network".as_bytes()) {
        SignerError::InvalidNetwork
    } else if starts_with(msg, "Failed to parse oracle pubkey".as_bytes()) {
        SignerError::InvalidOraclePubkey
    } else if starts_with(msg, "Failed to parse".as_bytes()) {
        SignerError::InvalidPoint
    } else {
        fallback
    }
}

impl SignerError {
    /// The text of `describe`.
    pub open spec fn describe_spec(self) -> Seq<char> {
        match self {
            SignerError::InvalidEntropy => "invalid entropy"@,
            SignerError::InvalidMnemonic => "invalid mnemonic"@,
            SignerError::InvalidNetwork => "invalid network"@,
            SignerError::KeyNotInitialized => "key not initialized"@,
            SignerError::DerivationOverflow => "derivation index out of range"@,
            SignerError::InvalidHashLength => "hash must encode 32 bytes"@,
            SignerError::SignerMismatch => "signer public key mismatch"@,
            SignerError::InvalidEventId => "invalid event id"@,
            SignerError::CountMismatch { .. } => "count mismatch"@,
            SignerError::NonceCountMismatch { .. } => "nonce count mismatch"@,
            SignerError::DigitCountMismatch => "digit count mismatch"@,
            SignerError::InvalidOraclePubkey => "invalid oracle public key"@,
            SignerError::InvalidPoint => "invalid point"@,
            SignerError::InvalidInputEncoding => "invalid input encoding"@,
            SignerError::AdaptorConstructionFailure => "adaptor construction failure"@,
            SignerError::InternalCurveError => "internal curve error"@,
        }
    }

    /// A short human-readable message for this error.
    pub fn describe(&self) -> (r: &'static str)
        ensures
            r@ == self.describe_spec(),
    {
        match self {
            SignerError::InvalidEntropy => "invalid entropy",
            SignerError::InvalidMnemonic => "invalid mnemonic",
            SignerError::InvalidNetwork => "invalid network",
            SignerError::KeyNotInitialized => "key not initialized",
            SignerError::DerivationOverflow => "derivation index out of range",
            SignerError::InvalidHashLength => "hash must encode 32 bytes",
            SignerError::SignerMismatch => "signer public key mismatch",
            SignerError::InvalidEventId => "invalid event id",
            SignerError::CountMismatch { .. } => "count mismatch",
            SignerError::NonceCountMismatch { .. } => "nonce count mismatch",
            SignerError::DigitCountMismatch => "digit count mismatch",
            SignerError::InvalidOraclePubkey => "invalid oracle public key",
            SignerError::InvalidPoint => "invalid point",
            SignerError::InvalidInputEncoding => "invalid input encoding",
            SignerError::AdaptorConstructionFailure => "adaptor construction failure",
            SignerError::InternalCurveError => "internal curve error",
        }
    }
}

} // verus!
