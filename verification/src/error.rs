//! The ways in which a component can be misconfigured.
use vstd::prelude::*;

verus! {

/// Why a constructor or a setter turned its arguments down.
#[derive(Clone, Copy, Debug, PartialEq, Eq, Structural)]
pub enum ConfigError {
    /// A buffer of no frames was asked for.
    ZeroCapacity,
    /// The delay asked for is not shorter than the buffer.
    OffsetOutOfRange,
    /// A cycle of no frames was asked for.
    ZeroPeriod,
}

} // verus!
