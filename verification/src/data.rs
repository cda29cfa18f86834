//! Plain values shared between the canvas and its shaders.

use vstd::prelude::*;

verus! {

/// How the canvas shades the geometry it holds.
#[derive(Debug, Clone, Copy, PartialEq, Eq, Structural)]
pub enum DrawMode {
    Color,
    SDF,
}

impl DrawMode {
    /// The mode that follows `self` in the cycle `Color -> SDF -> Color`.
    pub open spec fn next(self) -> DrawMode {
        match self {
            DrawMode::Color => DrawMode::SDF,
            DrawMode::SDF => DrawMode::Color,
        }
    }

    /// Steps `self` to the next mode of the cycle and returns the new mode.
    pub fn increment(&mut self) -> (mode: DrawMode)
        ensures
            *final(self) == old(self).next(),
            mode == old(self).next(),
    {
        *self = match *self {
            DrawMode::Color => DrawMode::SDF,
            DrawMode::SDF => DrawMode::Color,
        };
        *self
    }
}

} // verus!
