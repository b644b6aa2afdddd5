//! What can go wrong in this library.

use vstd::prelude::*;

verus! {

/// A failure of the library.
#[derive(Clone, Copy, Debug, PartialEq, Eq, Structural)]
pub enum AstroUtilError {
    /// The tabulated data is missing or a row of it lacks a column.
    ParsecDataNotAvailable,
    /// The greatest distance asked for lies beyond what can be sampled, or
    /// is negative where a single star is asked for.
    DistanceOutOfRange,
}

} // verus!
