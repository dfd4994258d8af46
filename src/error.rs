use vstd::prelude::*;

verus! {

/// Why an export or an import of a collection failed.
#[derive(Debug, PartialEq, Eq)]
pub enum Error {
    /// The owner's identity is not an absolute URL that a collection
    /// identifier can be derived from.
    MalformedIdentifier,
    /// The collection's identifier is not on the expected domain.
    VerificationFailed,
    /// One item's conversion failed; holds that conversion's own error.
    ItemConversionFailed(String),
    /// The shared store was left inconsistent by an earlier failure.
    StoreUnavailable,
}

} // verus!
