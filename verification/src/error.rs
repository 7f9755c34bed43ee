//! The failures that key management reports.

use vstd::prelude::*;

verus! {

/// Why an operation on keys or packets did not produce a result.
#[derive(Clone, Copy, Debug, PartialEq, Eq, Structural)]
pub enum Error {
    /// The requested algorithm is outside the supported set, or is not
    /// admitted where it was asked for. Fatal to the connection.
    UnsupportedCipherSuite,
    /// A secret, key or nonce has the wrong size, or more is asked of a
    /// primitive than it gives: more key material than HKDF expands to, or
    /// the sealing of an input beyond the AEAD's limits. Fatal to the
    /// connection.
    InvalidKeyMaterial,
    /// A packet did not pass authentication. Only that packet is lost.
    AuthenticationFailure,
}

impl Error {
    /// Whether the connection can go on after this error: true of a failed
    /// authentication only.
    pub fn is_recoverable(&self) -> (recoverable: bool)
        ensures
            recoverable == (*self == Error::AuthenticationFailure),
    {
        match self {
            Error::AuthenticationFailure => true,
            _ => false,
        }
    }
}

} // verus!
