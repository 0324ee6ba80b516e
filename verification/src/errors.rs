//! The failures of a call.

use vstd::prelude::*;

verus! {

/// Why a call failed. A call that fails returns no partial result.
#[derive(Debug, Clone, Copy, PartialEq, Eq, Structural)]
pub enum Error {
    /// The base address joined with the path is not a URL, or the URL
    /// would be longer than the library builds one.
    Url,
    /// The request could not be sent, or no response arrived.
    Transport,
    /// The response carries a status outside the success range.
    Status(u16),
    /// The consistency index of the response is not UTF-8.
    IndexEncoding,
    /// The consistency index of the response is not a decimal `u64`.
    IndexNumber,
    /// The body of the response does not decode to the expected type.
    Body,
}

} // verus!
