use vstd::prelude::*;

verus! {

/// Failure taxonomy of the text-signing subsystem.
///
/// A failed cryptographic check (a signature that does not match) is reported
/// by verification as a normal `Ok(false)` result, never as one of these
/// errors: only malformed input or an unavailable collaborator is an error.
#[derive(Clone, Copy, Debug, PartialEq, Eq, Structural)]
pub enum TextSignError {
    /// The algorithm tag is not one of the supported names.
    UnsupportedAlgorithm,
    /// Key material length does not match the algorithm's fixed requirement;
    /// a key is never silently truncated or padded.
    KeyLength,
    /// A candidate signature failed to decode from its text encoding, or
    /// decoded to the wrong byte length.
    MalformedSignature,
    /// The payload or key source could not be read.
    SourceUnavailable,
    /// Secure randomness was unavailable during key generation.
    EntropyUnavailable,
}

impl TextSignError {
    /// A short description of the failure, fit for display.
    pub fn message(&self) -> (s: &'static str)
        ensures
            s@ == match self {
                TextSignError::UnsupportedAlgorithm => "unsupported algorithm tag"@,
                TextSignError::KeyLength => "key material has the wrong length"@,
                TextSignError::MalformedSignature => "signature is malformed"@,
                TextSignError::SourceUnavailable => "source could not be read"@,
                TextSignError::EntropyUnavailable => "secure randomness is unavailable"@,
            },
    {
        match self {
            TextSignError::UnsupportedAlgorithm => "unsupported algorithm tag",
            TextSignError::KeyLength => "key material has the wrong length",
            TextSignError::MalformedSignature => "signature is malformed",
            TextSignError::SourceUnavailable => "source could not be read",
            TextSignError::EntropyUnavailable => "secure randomness is unavailable",
        }
    }
}

} // verus!
