//! The shapes of the square waves of the two tone channels.

use vstd::prelude::*;

verus! {

/// For how much of its period a square wave is low.
#[derive(Copy, Clone, Debug, PartialEq, Eq)]
pub enum WaveDuty {
    /// `_-------_-------`
    Eighth,
    /// `__------__------`
    Quarter,
    /// `____----____----`
    Half,
    /// `______--______--`
    ThreeQuarter,
}

} // verus!
