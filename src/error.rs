use vstd::prelude::*;

verus! {

/// Why an operation of the key custodian failed.
#[derive(Clone, Copy, Debug, PartialEq, Eq, Structural)]
pub enum KeyError {
    /// An input has the wrong size.
    InvalidLength,
    /// A textual encoding is malformed.
    InvalidEncoding,
    /// A bech32 string carries another human-readable prefix than `nsec`.
    InvalidPrefix,
    /// Well-formed bytes that the signature scheme rejects as a secret key.
    InvalidKey,
    /// The operation needs a resident key and none is loaded.
    NoKeyLoaded,
    /// The signature primitive reported an error while signing.
    SigningFailure,
}

impl KeyError {
    /// A human-readable message; it never holds key material.
    pub fn message(&self) -> (r: &'static str) {
        match self {
            KeyError::InvalidLength => "input has the wrong length",
            KeyError::InvalidEncoding => "malformed key encoding",
            KeyError::InvalidPrefix => "wrong bech32 prefix (expected nsec)",
            KeyError::InvalidKey => "invalid private key",
            KeyError::NoKeyLoaded => "no key loaded",
            KeyError::SigningFailure => "signing failed",
        }
    }
}

} // verus!
