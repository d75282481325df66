//! Laws of the normalization layer.
//!
//! Each proof function states a property that holds of every backend
//! reply and every dispatcher instance, over the postcondition predicates
//! that the signing operations themselves ensure.

use crate::error::KoraError;
use crate::signer::{
    native_bytes, native_is_partial, sign_post, sign_solana_post, spec_pubkey, KoraSigner,
    NativeSignature, Signature,
};
use crate::solana::{SolanaPubkey, SolanaSignature, SIGNATURE_BYTES};
use vstd::prelude::*;

verus! {

/// A complete native signature never normalizes to a partial carrier:
/// whenever the backend's reply carries no partial share, a successful
/// `sign` returns `is_partial == false`, and the carrier's bytes are the
/// backend's signature bytes verbatim — exactly what the backend's own
/// algorithm produced over the signed message.
pub proof fn lemma_complete_reply_signs_complete(
    s: KoraSigner,
    out: NativeSignature,
    r: Result<Signature, KoraError>,
)
    requires
        sign_post(s, Ok(out), r),
        !native_is_partial(out),
    ensures
        r matches Ok(sig) ==> (!sig.is_partial && sig.bytes@ == native_bytes(out)),
{
}

/// Cross-operation consistency: when one underlying native reply is
/// normalized through both operations, a successful `sign` and a
/// successful `sign_solana` carry byte-identical signature payloads.
pub proof fn lemma_cross_operation_consistency(
    s: KoraSigner,
    out: NativeSignature,
    r1: Result<Signature, KoraError>,
    r2: Result<SolanaSignature, KoraError>,
)
    requires
        sign_post(s, Ok(out), r1),
        sign_solana_post(Ok(out), r2),
    ensures
        r1 matches Ok(sig) ==> (r2 matches Ok(chain) ==> sig.bytes@ == chain.bytes@),
{
}

/// A complete signature whose length is not the chain's fixed signature
/// size makes `sign_solana` fail with a format error naming both lengths
/// — it is never truncated or padded (and, as verified code, the
/// operation cannot panic).
pub proof fn lemma_wrong_length_is_format_error(
    out: NativeSignature,
    r: Result<SolanaSignature, KoraError>,
)
    requires
        sign_solana_post(Ok(out), r),
        !native_is_partial(out),
        native_bytes(out).len() != SIGNATURE_BYTES,
    ensures
        r matches Err(e) ==> (e matches KoraError::InvalidSignatureLength { expected, actual }
            && expected == SIGNATURE_BYTES && actual == native_bytes(out).len()),
        r is Err,
{
}

/// Independence of concurrent calls: the dispatcher holds no mutable
/// state, so the outcome of a `sign` call is a function of the instance
/// and of that call's own backend reply alone.  Two calls given the same
/// reply agree on success and on the normalized payload; no other call
/// can contaminate either.
pub proof fn lemma_sign_deterministic(
    s: KoraSigner,
    reply: Result<NativeSignature, String>,
    r1: Result<Signature, KoraError>,
    r2: Result<Signature, KoraError>,
)
    requires
        sign_post(s, reply, r1),
        sign_post(s, reply, r2),
    ensures
        r1 is Ok <==> r2 is Ok,
        r1 matches Ok(a) ==> (r2 matches Ok(b) ==> (a.bytes@ == b.bytes@ && a.is_partial
            == b.is_partial)),
{
}

/// Error translation through `sign`: a backend failure surfaces as the
/// typed wrapping error, and the underlying cause — the backend's own
/// message — is preserved verbatim, never discarded.
pub proof fn lemma_sign_preserves_failure_cause(
    s: KoraSigner,
    m: String,
    r: Result<Signature, KoraError>,
)
    requires
        sign_post(s, Err(m), r),
    ensures
        r matches Err(e) && e matches KoraError::SigningError(w) && w@ == m@,
{
}

/// Error translation through `sign_solana`: the same lossless wrapping.
pub proof fn lemma_sign_solana_preserves_failure_cause(
    m: String,
    r: Result<SolanaSignature, KoraError>,
)
    requires
        sign_solana_post(Err(m), r),
    ensures
        r matches Err(e) && e matches KoraError::SigningError(w) && w@ == m@,
{
}

/// Identity stability: every lookup of the dispatcher's public key yields
/// the one address of its held key.  Any two values `solana_pubkey`
/// returns — before, between, or after signing calls, all of which take
/// the instance immutably — are equal.
pub proof fn lemma_identity_stable(s: KoraSigner, k1: SolanaPubkey, k2: SolanaPubkey)
    requires
        k1 == spec_pubkey(s),
        k2 == spec_pubkey(s),
    ensures
        k1 == k2,
{
}

} // verus!
