//! Issuer-side core of an attribute-credential scheme over the BN254 scalar
//! field: field encoding, additive secret sharing, a MiMC commitment hash,
//! credential signing and per-verifier session binding.

pub mod decimal;
pub mod error;
pub mod field;
pub mod hash;
pub mod mimc;
pub mod sharing;
pub mod signature;
pub mod format;
pub mod text;
pub mod issue;
pub mod session;
