//! Why a step of the simulation can fail.
use vstd::prelude::*;

verus! {

/// Why a step of the simulation failed.
#[derive(Clone, Copy, PartialEq, Eq, Structural, Debug)]
pub enum SimError {
    /// An entity could not say what it does next.
    Unknown,
    /// An effect addresses an entity that is not in the roster.
    UnresolvedTarget,
    /// A span of time is negative, or the moment it leads to cannot be
    /// represented.
    InvalidDuration,
}

} // verus!
