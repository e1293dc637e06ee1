//! Key derivation and signing for Discreet Log Contracts.
//!
//! The elliptic-curve work is done by the `dlccryptlib` crate, and mnemonic
//! sentences are read by `bip39`. This library validates every request
//! before it reaches the curve code, fixes what is handed over, holds what
//! comes back to its encoding, and turns each failure into a closed error
//! type.
//!
//! The master key is process-wide: the curve library keeps it behind a
//! read-write lock, one key at a time. Establishing a key replaces the one
//! before; a refused request leaves it as it was.

pub mod backend;
pub mod error;
pub mod service;
pub mod signer;
pub mod text;
