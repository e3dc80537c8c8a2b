//! Interaction core of a 2D parameterized-image viewer.
//!
//! The library converts raw pointer and keyboard input into a view transform
//! and a complex rendering parameter.  All state and arithmetic are exact:
//! coordinates are integer pixels, the zoom factor and the output transform
//! are decimal fixed-point values, and rotations are nonzero integer complex
//! numbers that stand for their own normalized direction.  The surrounding
//! application converts the fixed-point outputs to whatever number format its
//! renderer expects.

use vstd::prelude::*;

pub mod camera;
pub mod events;
pub mod fixed;
pub mod plane;
pub mod rotation;
pub mod viewer;

verus! {

/// Window dimensions chosen at startup, handed in by the launcher.
pub struct Args {
    pub win_width: u32,
    pub win_height: u32,
}

} // verus!
