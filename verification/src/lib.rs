//! Time-locked key disclosure envelopes.
//!
//! Content is encrypted under a fresh symmetric key. The key is bound to a
//! release timestamp by a digest over a fixed byte layout, and the pair of
//! key and digest is shielded once for each custodian, so that only the
//! custodians can recover the key.

pub mod error;
pub mod clock;
pub mod layout;
pub mod binding;
pub mod cipher;
pub mod shield;
pub mod distribution;
pub mod envelope;
