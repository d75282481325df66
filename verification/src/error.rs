//! The shared error taxonomy of the signing core.
//!
//! Every backend-native failure is wrapped into [`KoraError`] before it
//! crosses the dispatcher boundary; nothing is silently swallowed, and the
//! wrapping is lossless at the message level.

use vstd::prelude::*;

verus! {

/// The unified error type surfaced by every signing operation.
#[derive(Debug, Clone)]
pub enum KoraError {
    /// A backend failed to produce a signature: message transport,
    /// authentication, or key unavailability.  The wrapped string is the
    /// backend's own failure message, preserved verbatim.
    SigningError(String),
    /// A backend replied with a shape its variant never produces
    /// (a malformed or unexpected backend response).
    UnexpectedResponse,
    /// A byte signature could not be reinterpreted as the chain-native
    /// signature type because its length is not the chain's fixed
    /// signature size.
    InvalidSignatureLength { expected: usize, actual: usize },
    /// A partial signature share reached a context that needs a complete,
    /// directly submittable signature.
    PartialSignature,
}

impl KoraError {
    /// The wrapped backend failure message, where this error wraps one.
    ///
    /// This is how a caller recovers the underlying cause of a backend
    /// failure: the message is handed back exactly as the backend gave it.
    pub fn backend_message(&self) -> (r: Option<&String>)
        ensures
            match *self {
                KoraError::SigningError(ref m) => r matches Some(w) && w@ == m@,
                _ => r is None,
            },
    {
        match self {
            KoraError::SigningError(m) => Some(m),
            _ => None,
        }
    }
}

} // verus!
