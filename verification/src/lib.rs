//! A uniform signing abstraction for a transaction-relaying service.
//!
//! Callers sign arbitrary byte payloads without knowing which key-custody
//! backend holds the private key.  The hard problem is normalization:
//! backends return incompatible native shapes (a generic partial/complete
//! carrier, a chain-native signature object, or a bare byte vector) and
//! heterogeneous errors.  The [`signer::KoraSigner`] dispatcher maps every
//! native reply into the shared [`signer::Signature`] / [`error::KoraError`]
//! vocabulary, with the mapping stated and proved exactly.
//!
//! The backends themselves (an in-process key-material signer and three
//! remote custodial services) are opaque collaborators: their network
//! clients live outside this core.  A runtime awaits a backend's reply and
//! hands it, as a plain value, to the dispatcher's normalization methods.

pub mod backends;
pub mod error;
pub mod laws;
pub mod signer;
pub mod solana;
