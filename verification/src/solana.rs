//! Models of the chain-native value types.
//!
//! The chain fixes both sizes: an address is a 32-byte public key and a
//! complete signature is exactly 64 bytes.  Holding the bytes in fixed-size
//! arrays makes both invariants hold by construction.

use crate::error::KoraError;
use vstd::prelude::*;

verus! {

/// The chain's fixed signature size in bytes.
pub const SIGNATURE_BYTES: usize = 64;

/// The chain's fixed public-key (address) size in bytes.
pub const PUBKEY_BYTES: usize = 32;

/// A chain-native public key: the address a backend's held key signs for.
#[derive(Debug, Clone, Copy, PartialEq, Eq)]
pub struct SolanaPubkey {
    /// The raw bytes of the public key.
    pub bytes: [u8; PUBKEY_BYTES],
}

impl SolanaPubkey {
    /// Wraps raw address bytes as a chain-native public key.
    pub fn new(bytes: [u8; PUBKEY_BYTES]) -> (r: SolanaPubkey)
        ensures
            r.bytes@ == bytes@,
    {
        SolanaPubkey { bytes }
    }
}

/// A chain-native signature: the fixed-format type required for direct
/// on-chain submission, as opposed to a generic byte-envelope signature.
#[derive(Debug, Clone, Copy, PartialEq, Eq)]
pub struct SolanaSignature {
    /// The raw bytes of the signature.
    pub bytes: [u8; SIGNATURE_BYTES],
}

impl SolanaSignature {
    /// Wraps raw signature bytes of the chain's fixed size.
    pub fn new(bytes: [u8; SIGNATURE_BYTES]) -> (r: SolanaSignature)
        ensures
            r.bytes@ == bytes@,
    {
        SolanaSignature { bytes }
    }

    /// Reinterprets a byte signature as the chain-native type.
    ///
    /// Succeeds exactly when the input has the chain's fixed signature
    /// size, copying the bytes verbatim; any other length is a format
    /// error, never a truncation.
    pub fn try_from_bytes(bytes: &[u8]) -> (r: Result<SolanaSignature, KoraError>)
        ensures
            bytes@.len() == SIGNATURE_BYTES ==> (r matches Ok(s) && s.bytes@ == bytes@),
            bytes@.len() != SIGNATURE_BYTES ==> (r matches Err(e) && e matches
                KoraError::InvalidSignatureLength { expected, actual }
                && expected == SIGNATURE_BYTES && actual == bytes@.len()),
    {
        if bytes.len() == SIGNATURE_BYTES {
            let mut arr: [u8; SIGNATURE_BYTES] = [0u8; SIGNATURE_BYTES];
            let mut i: usize = 0;
            while i < SIGNATURE_BYTES
                invariant
                    i <= SIGNATURE_BYTES,
                    bytes@.len() == SIGNATURE_BYTES,
                    arr@.len() == SIGNATURE_BYTES,
                    forall|j: int| 0 <= j < i ==> arr@[j] == bytes@[j],
                decreases SIGNATURE_BYTES - i,
            {
                arr[i] = bytes[i];
                i += 1;
            }
            assert(arr@ =~= bytes@);
            Ok(SolanaSignature { bytes: arr })
        } else {
            Err(KoraError::InvalidSignatureLength {
                expected: SIGNATURE_BYTES,
                actual: bytes.len(),
            })
        }
    }

    /// The raw signature bytes as an owned vector, copied verbatim.
    pub fn to_vec(&self) -> (r: Vec<u8>)
        ensures
            r@ == self.bytes@,
    {
        vstd::slice::slice_to_vec(self.bytes.as_slice())
    }
}

} // verus!
