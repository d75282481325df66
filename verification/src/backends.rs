//! Handles for the closed set of key-custody backends.
//!
//! Each backend is an opaque collaborator: its network client,
//! authentication, and retry policy live outside this core.  What the
//! dispatcher reads of a backend is its identity — the one chain-native
//! public key its held private key signs for, fixed for the lifetime of
//! the handle.  Identity lookup is pure and infallible: a backend that
//! cannot determine its key is a configuration error at construction
//! time, never at signing time.

use crate::solana::SolanaPubkey;
use vstd::prelude::*;

verus! {

/// Handle for the in-process backend holding key material in memory.
#[derive(Debug, Clone, Copy)]
pub struct SolanaMemorySigner {
    /// The chain address of the held key.
    pub pubkey: SolanaPubkey,
}

impl SolanaMemorySigner {
    /// Builds the handle for a key with the given chain address.
    pub fn new(pubkey: SolanaPubkey) -> (r: SolanaMemorySigner)
        ensures
            r.pubkey == pubkey,
    {
        SolanaMemorySigner { pubkey }
    }

    /// The chain address of the held key.
    pub fn solana_pubkey(&self) -> (r: SolanaPubkey)
        ensures
            r == self.pubkey,
    {
        self.pubkey
    }
}

/// Handle for the remote wallet-infrastructure custodial backend.
#[derive(Debug, Clone, Copy)]
pub struct PrivySigner {
    /// The chain address of the held key.
    pub pubkey: SolanaPubkey,
}

impl PrivySigner {
    /// Builds the handle for a key with the given chain address.
    pub fn new(pubkey: SolanaPubkey) -> (r: PrivySigner)
        ensures
            r.pubkey == pubkey,
    {
        PrivySigner { pubkey }
    }

    /// The chain address of the held key.
    pub fn solana_pubkey(&self) -> (r: SolanaPubkey)
        ensures
            r == self.pubkey,
    {
        self.pubkey
    }
}

/// Handle for the remote hardware-backed key-management backend.
#[derive(Debug, Clone, Copy)]
pub struct TurnkeySigner {
    /// The chain address of the held key.
    pub pubkey: SolanaPubkey,
}

impl TurnkeySigner {
    /// Builds the handle for a key with the given chain address.
    pub fn new(pubkey: SolanaPubkey) -> (r: TurnkeySigner)
        ensures
            r.pubkey == pubkey,
    {
        TurnkeySigner { pubkey }
    }

    /// The chain address of the held key.
    pub fn solana_pubkey(&self) -> (r: SolanaPubkey)
        ensures
            r == self.pubkey,
    {
        self.pubkey
    }
}

/// Handle for the remote secrets-vault custodial backend.
#[derive(Debug, Clone, Copy)]
pub struct VaultSigner {
    /// The chain address of the held key.
    pub pubkey: SolanaPubkey,
}

impl VaultSigner {
    /// Builds the handle for a key with the given chain address.
    pub fn new(pubkey: SolanaPubkey) -> (r: VaultSigner)
        ensures
            r.pubkey == pubkey,
    {
        VaultSigner { pubkey }
    }

    /// The chain address of the held key.
    pub fn solana_pubkey(&self) -> (r: SolanaPubkey)
        ensures
            r == self.pubkey,
    {
        self.pubkey
    }
}

} // verus!
