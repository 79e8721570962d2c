//! Failure taxonomy of a KDBX database reader.
//!
//! Three closed tiers classify everything that can go wrong while a KDBX
//! container is authenticated, decrypted, decompressed and parsed. Each tier
//! renders to a deterministic text and names its immediate cause.

pub mod cause;
pub mod crypto;
pub mod foreign;
pub mod integrity;
pub mod laws;
pub mod outcome;
pub mod text;

pub use crate::cause::Cause;
pub use crate::crypto::CryptoError;
pub use crate::integrity::DatabaseIntegrityError;
pub use crate::outcome::KdbxError;
