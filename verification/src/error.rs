//! The ways in which building an envelope can fail.

use vstd::prelude::*;

verus! {

/// Why the symmetric cipher unit refused.
#[derive(Clone, Copy, Debug, PartialEq, Eq, Structural)]
pub enum CryptoFailure {
    /// The system's random source supplied no entropy.
    RandomSource,
    /// The key material is not a 32-byte key followed by a 12-byte nonce.
    InvalidKeyLength,
    /// The plaintext is longer than the cipher accepts under one nonce.
    PlaintextTooLong,
    /// The ciphertext does not authenticate under the key material.
    Authentication,
}

/// Why the shielding unit refused.
#[derive(Clone, Copy, Debug, PartialEq, Eq, Structural)]
pub enum ShieldingFailure {
    /// The payload is longer than one block of the padding scheme holds.
    PayloadTooLarge,
    /// The custodian's public key does not have the fixed layout.
    MalformedPublicKey,
    /// The asymmetric encryption itself reported a failure, or returned
    /// something that is not one block of ciphertext.
    Rejected,
}

/// Every failure is handed to the caller at once; nothing is retried and no
/// partial result is produced.
#[derive(Clone, Copy, Debug, PartialEq, Eq, Structural)]
pub enum EnvelopeError {
    CryptoError(CryptoFailure),
    /// The system time is unavailable, or too far in the future to express
    /// in milliseconds.
    ClockError,
    ShieldingError(ShieldingFailure),
    /// The registry knows no custodian.
    NoCustodiansAvailable,
}

} // verus!
