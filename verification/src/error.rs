//! The ways in which a fetch can fail.

use vstd::prelude::*;

verus! {

/// Why a fetch, or the decoding of what it returned, failed.
#[derive(Clone, Copy, Debug, PartialEq, Eq)]
pub enum FetchError {
    /// The request did not complete: a network failure or a response that
    /// reports no success.
    Transport,
    /// The body is not JSON, or not of the expected shape.
    Decode,
    /// The device index is beyond the end of the device listing.
    Index,
}

} // verus!
