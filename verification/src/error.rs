//! Why a decode attempt produced no block.

use vstd::prelude::*;

verus! {

/// Failure of one decode attempt.
#[derive(Debug, PartialEq, Eq, Clone, Copy, Structural)]
pub enum DecodeError {
    /// The bytes at hand end before the block does. More may arrive later, so
    /// this is no fault of the data.
    Incomplete,
    /// The first four bytes are none of the four magic numbers.
    UnrecognizedMagic,
    /// The header's link-type code names no known link type.
    UnsupportedLinkType,
}

} // verus!
