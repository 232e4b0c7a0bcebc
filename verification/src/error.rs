use vstd::prelude::*;

verus! {

/// The failures this crate reports.
///
/// Every fallible operation of the crate returns exactly one of these
/// variants, so callers can tell key-validation problems, provider
/// (cipher) failures, and malformed-plaintext conditions apart.
#[derive(Clone, Copy, PartialEq, Eq, Structural, Debug)]
pub enum Error {
    /// Key bytes of the wrong length were handed to `Key::load`.
    ValidationError,
    /// A failure inside the provider: sealing, opening (including
    /// authentication failure), or secure-random generation went wrong.
    ProviderError,
    /// Opening succeeded cryptographically, but the plaintext does not
    /// decode into the requested payload type.
    MalformedPayloadError,
}

} // verus!
