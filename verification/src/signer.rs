//! The Signer capability and the unified dispatcher.
//!
//! Each backend returns a native shape of its own: an already-correct
//! generic carrier, a chain-native signature object, or a bare byte
//! vector, and a native error of its own.  The dispatcher pattern-matches
//! on its active variant and maps every native reply into the shared
//! [`Signature`] / [`crate::error::KoraError`] vocabulary.
//!
//! The backend call itself — near-instant for the in-memory backend, a
//! network round-trip for the custodial services — happens outside this
//! core: the caller's runtime performs it and hands the native reply in
//! as a plain [`NativeSignature`] value.  The dispatcher holds no mutable
//! state of its own, so concurrent calls are independent: each result is
//! a function of the instance and its own reply alone, as the contracts
//! below state.

use crate::backends::{PrivySigner, SolanaMemorySigner, TurnkeySigner, VaultSigner};
use crate::error::KoraError;
use crate::solana::{SolanaPubkey, SolanaSignature, SIGNATURE_BYTES};
use vstd::prelude::*;

verus! {

/// A signature in the shared vocabulary: an immutable value object
/// produced once per signing call and never mutated.
#[derive(Debug, Clone)]
pub struct Signature {
    /// The raw bytes of the signature.
    pub bytes: Vec<u8>,
    /// Whether this is a partial signature (a share that still needs
    /// combination with other shares) or a complete signature.
    pub is_partial: bool,
}

/// What a backend's signing call natively replied with, as a plain value.
#[derive(Debug, Clone)]
pub enum NativeSignature {
    /// The backend already speaks the generic carrier vocabulary and
    /// distinguishes partial from complete signatures itself.
    Carrier(Signature),
    /// A single, complete chain-native signature object.
    Chain(SolanaSignature),
    /// A raw byte vector with no partiality concept.
    Raw(Vec<u8>),
}

/// The raw signature bytes a native reply carries.
pub open spec fn native_bytes(out: NativeSignature) -> Seq<u8> {
    match out {
        NativeSignature::Carrier(sig) => sig.bytes@,
        NativeSignature::Chain(sig) => sig.bytes@,
        NativeSignature::Raw(bytes) => bytes@,
    }
}

/// Whether a native reply carries a partial signature.  Only the generic
/// carrier has a partiality flag; the chain-native and raw shapes are
/// always single, complete signatures.
pub open spec fn native_is_partial(out: NativeSignature) -> bool {
    match out {
        NativeSignature::Carrier(sig) => sig.is_partial,
        NativeSignature::Chain(_) => false,
        NativeSignature::Raw(_) => false,
    }
}

/// Whether a native reply has the shape the active variant's backend
/// produces on the generic signing path: the in-memory and vault backends
/// reply with the carrier, the wallet-infrastructure backend with a
/// chain-native signature, the key-management backend with raw bytes.
pub open spec fn native_shape_matches(s: KoraSigner, out: NativeSignature) -> bool {
    match s {
        KoraSigner::Memory(_) => out is Carrier,
        KoraSigner::Privy(_) => out is Chain,
        KoraSigner::Turnkey(_) => out is Raw,
        KoraSigner::Vault(_) => out is Carrier,
    }
}

/// The chain address of the active backend's held key.
pub open spec fn spec_pubkey(s: KoraSigner) -> SolanaPubkey {
    match s {
        KoraSigner::Memory(signer) => signer.pubkey,
        KoraSigner::Privy(signer) => signer.pubkey,
        KoraSigner::Turnkey(signer) => signer.pubkey,
        KoraSigner::Vault(signer) => signer.pubkey,
    }
}

/// Exactly how `sign` normalizes a backend reply.
///
/// A backend failure is wrapped, message preserved verbatim.  A native
/// signature of the variant's own shape becomes the carrier: bytes
/// verbatim, the partiality flag passed through where the backend has
/// one and `false` where its output is always complete.  A reply of any
/// other shape is a malformed backend response.
pub open spec fn sign_post(
    s: KoraSigner,
    reply: Result<NativeSignature, String>,
    r: Result<Signature, KoraError>,
) -> bool {
    match reply {
        Err(m) => (r matches Err(KoraError::SigningError(w)) && w@ == m@),
        Ok(out) => if native_shape_matches(s, out) {
            &&& r matches Ok(sig)
            &&& sig.bytes@ == native_bytes(out)
            &&& sig.is_partial == native_is_partial(out)
        } else {
            r matches Err(KoraError::UnexpectedResponse)
        },
    }
}

/// Exactly how `sign_solana` normalizes a backend reply.
///
/// A backend failure is wrapped, message preserved verbatim.  A partial
/// signature is refused outright: it cannot be reinterpreted as a
/// directly submittable chain signature.  A complete signature of the
/// chain's fixed size is returned with its bytes unchanged; any other
/// length is a format error, never a truncation.
pub open spec fn sign_solana_post(
    reply: Result<NativeSignature, String>,
    r: Result<SolanaSignature, KoraError>,
) -> bool {
    match reply {
        Err(m) => (r matches Err(KoraError::SigningError(w)) && w@ == m@),
        Ok(out) => if native_is_partial(out) {
            r matches Err(KoraError::PartialSignature)
        } else if native_bytes(out).len() == SIGNATURE_BYTES {
            (r matches Ok(sig) && sig.bytes@ == native_bytes(out))
        } else {
            &&& r matches Err(e)
            &&& e matches KoraError::InvalidSignatureLength { expected, actual }
            &&& expected == SIGNATURE_BYTES
            &&& actual == native_bytes(out).len()
        },
    }
}

/// A capability for signing arbitrary messages.
///
/// Both operations normalize the native reply of a backend signing call
/// that the caller's runtime has already performed; the reply comes in as
/// a plain value and the result is pinned down by the implementation's
/// own postcondition predicates.
pub trait Signer {
    /// The error type returned by signing operations.
    type Error;

    /// What `sign` guarantees of its result.
    spec fn sign_ensures(
        &self,
        reply: Result<NativeSignature, String>,
        r: Result<Signature, Self::Error>,
    ) -> bool;

    /// What `sign_solana` guarantees of its result.
    spec fn sign_solana_ensures(
        &self,
        reply: Result<NativeSignature, String>,
        r: Result<SolanaSignature, Self::Error>,
    ) -> bool;

    /// Normalizes the backend's reply to a signing call into the generic
    /// `Signature` carrier.
    fn sign(&self, reply: Result<NativeSignature, String>) -> (r: Result<Signature, Self::Error>)
        ensures
            self.sign_ensures(reply, r),
    ;

    /// Normalizes the backend's reply to a signing call into the
    /// chain-native signature type, ready for on-chain submission.
    fn sign_solana(&self, reply: Result<NativeSignature, String>) -> (r: Result<
        SolanaSignature,
        Self::Error,
    >)
        ensures
            self.sign_solana_ensures(reply, r),
    ;
}

/// The unified dispatcher: a closed tagged union over exactly one active
/// backend delegate, constructed once at configuration time.  It owns the
/// one handle it wraps and holds no mutable state beyond it.
#[derive(Clone)]
pub enum KoraSigner {
    Memory(SolanaMemorySigner),
    Privy(PrivySigner),
    Turnkey(TurnkeySigner),
    Vault(VaultSigner),
}

impl KoraSigner {
    /// The chain address of the active backend's held key.
    ///
    /// A pure, infallible lookup: the identity is fixed for the lifetime
    /// of the instance, so repeated calls return the same address.
    pub fn solana_pubkey(&self) -> (r: SolanaPubkey)
        ensures
            r == spec_pubkey(*self),
    {
        match self {
            KoraSigner::Memory(signer) => signer.solana_pubkey(),
            KoraSigner::Privy(signer) => signer.solana_pubkey(),
            KoraSigner::Turnkey(signer) => signer.solana_pubkey(),
            KoraSigner::Vault(signer) => signer.solana_pubkey(),
        }
    }
}

impl Signer for KoraSigner {
    type Error = KoraError;

    open spec fn sign_ensures(
        &self,
        reply: Result<NativeSignature, String>,
        r: Result<Signature, KoraError>,
    ) -> bool {
        sign_post(*self, reply, r)
    }

    open spec fn sign_solana_ensures(
        &self,
        reply: Result<NativeSignature, String>,
        r: Result<SolanaSignature, KoraError>,
    ) -> bool {
        sign_solana_post(reply, r)
    }

    fn sign(&self, reply: Result<NativeSignature, String>) -> (r: Result<Signature, KoraError>) {
        match self {
            KoraSigner::Memory(_) => match reply {
                Ok(NativeSignature::Carrier(sig)) => Ok(sig),
                Ok(_) => Err(KoraError::UnexpectedResponse),
                Err(m) => Err(KoraError::SigningError(m)),
            },
            KoraSigner::Privy(_) => match reply {
                Ok(NativeSignature::Chain(sig)) => Ok(
                    Signature { bytes: sig.to_vec(), is_partial: false },
                ),
                Ok(_) => Err(KoraError::UnexpectedResponse),
                Err(m) => Err(KoraError::SigningError(m)),
            },
            KoraSigner::Turnkey(_) => match reply {
                Ok(NativeSignature::Raw(bytes)) => Ok(
                    Signature { bytes, is_partial: false },
                ),
                Ok(_) => Err(KoraError::UnexpectedResponse),
                Err(m) => Err(KoraError::SigningError(m)),
            },
            KoraSigner::Vault(_) => match reply {
                Ok(NativeSignature::Carrier(sig)) => Ok(sig),
                Ok(_) => Err(KoraError::UnexpectedResponse),
                Err(m) => Err(KoraError::SigningError(m)),
            },
        }
    }

    fn sign_solana(&self, reply: Result<NativeSignature, String>) -> (r: Result<
        SolanaSignature,
        KoraError,
    >) {
        match reply {
            Ok(NativeSignature::Chain(sig)) => Ok(sig),
            Ok(NativeSignature::Raw(bytes)) => SolanaSignature::try_from_bytes(bytes.as_slice()),
            Ok(NativeSignature::Carrier(sig)) => if sig.is_partial {
                Err(KoraError::PartialSignature)
            } else {
                SolanaSignature::try_from_bytes(sig.bytes.as_slice())
            },
            Err(m) => Err(KoraError::SigningError(m)),
        }
    }
}

} // verus!
