use vstd::prelude::*;

verus! {

/// The ways in which embedding or extracting claims can fail.
#[derive(Debug, Clone, Copy, PartialEq, Eq, Structural)]
pub enum ErrorKind {
    /// The bytes do not parse as a WebAssembly module.
    MalformedContainer,
    /// A claim section's payload is not valid UTF-8.
    Encoding,
    /// The claims codec rejected the token.
    InvalidToken,
    /// The decoded claims carry no module hash to check against.
    InvalidAlgorithm,
    /// The recorded module hash differs from the module's own.
    InvalidModuleHash,
    /// The claims codec failed to sign the claims.
    Signing,
}

} // verus!
