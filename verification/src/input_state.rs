//! The input snapshot of one frame. The interface only reads it.

use vstd::prelude::*;
use crate::geometry::{Point, Rect};

verus! {

/// Where the pointer is and what its primary button does, as sampled once
/// at the start of a frame.
#[derive(Copy, Clone, Debug, PartialEq, Eq)]
pub struct InputState {
    /// The pointer's position, if it is over the window.
    pub mouse: Option<Point>,
    /// Whether the primary button is held in this frame.
    pub primary_down: bool,
    /// Whether the primary button was held in the frame before.
    pub primary_was_down: bool,
}

impl InputState {
    /// Whether the pointer is inside `bounds`.
    pub open spec fn over(self, bounds: Rect) -> bool {
        match self.mouse {
            Some(point) => bounds.holds(point),
            None => false,
        }
    }

    /// Whether the primary button went down in this frame.
    pub open spec fn pressed(self) -> bool {
        self.primary_down && !self.primary_was_down
    }

    /// Whether the primary button came up in this frame.
    pub open spec fn released(self) -> bool {
        !self.primary_down && self.primary_was_down
    }

    /// A snapshot with the pointer away and the button untouched.
    pub fn idle() -> (input: InputState)
        ensures
            input == (InputState { mouse: None, primary_down: false, primary_was_down: false }),
    {
        InputState { mouse: None, primary_down: false, primary_was_down: false }
    }

    /// Tests whether the pointer is inside `bounds`.
    pub fn mouse_is_over(&self, bounds: Rect) -> (over: bool)
        ensures
            over == self.over(bounds),
    {
        match self.mouse {
            Some(point) => bounds.contains(point),
            None => false,
        }
    }

    /// Tests whether the primary button went down in this frame.
    pub fn was_primary_pressed(&self) -> (pressed: bool)
        ensures
            pressed == self.pressed(),
    {
        self.primary_down && !self.primary_was_down
    }

    /// Tests whether the primary button came up in this frame.
    pub fn was_primary_released(&self) -> (released: bool)
        ensures
            released == self.released(),
    {
        !self.primary_down && self.primary_was_down
    }
}

} // verus!
