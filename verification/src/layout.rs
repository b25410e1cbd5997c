//! The layout cursor: a region and a position in it from which widgets are
//! handed their slots, one after the other along one axis.

use vstd::prelude::*;
use crate::geometry::{Point, Rect};

verus! {

/// The axis along which a layout hands out slots.
#[derive(Copy, Clone, Debug, PartialEq, Eq, Structural)]
pub enum Direction {
    LeftToRight,
    TopToBottom,
}

/// A region, an axis, and the coordinate on that axis at which the next
/// slot starts.
#[derive(Copy, Clone, Debug, PartialEq, Eq, Structural)]
pub struct Layout {
    pub bounds: Rect,
    pub direction: Direction,
    pub cursor: i32,
}

/// Where a slot of `extent` pixels that starts at `cursor` ends: at
/// `cursor + extent`, cut off at `limit`, and never before `cursor`.
pub open spec fn slot_end(cursor: int, extent: int, limit: int) -> int {
    if cursor + extent <= limit {
        cursor + extent
    } else if cursor <= limit {
        limit
    } else {
        cursor
    }
}

impl Layout {
    /// The layout over `bounds` from which nothing has been handed out: its
    /// cursor stands where the region starts along the axis.
    pub open spec fn at_start(bounds: Rect, direction: Direction) -> Layout {
        Layout {
            bounds,
            direction,
            cursor: match direction {
                Direction::LeftToRight => bounds.min.x,
                Direction::TopToBottom => bounds.min.y,
            },
        }
    }

    /// The coordinate at which the region ends along the layout's axis.
    pub open spec fn limit(self) -> int {
        match self.direction {
            Direction::LeftToRight => self.bounds.max.x as int,
            Direction::TopToBottom => self.bounds.max.y as int,
        }
    }

    /// The cursor after a slot of `extent` pixels has been handed out.
    pub open spec fn next_cursor(self, extent: u32) -> int {
        slot_end(self.cursor as int, extent as int, self.limit())
    }

    /// The slot of `extent` pixels at the cursor: from the cursor to the next
    /// cursor along the axis, and the full region across it.
    pub open spec fn slot(self, extent: u32) -> Rect {
        match self.direction {
            Direction::LeftToRight => Rect {
                min: Point { x: self.cursor, y: self.bounds.min.y },
                max: Point { x: self.next_cursor(extent) as i32, y: self.bounds.max.y },
            },
            Direction::TopToBottom => Rect {
                min: Point { x: self.bounds.min.x, y: self.cursor },
                max: Point { x: self.bounds.max.x, y: self.next_cursor(extent) as i32 },
            },
        }
    }

    /// The layout after the slot of `extent` pixels has been handed out.
    pub open spec fn advanced(self, extent: u32) -> Layout {
        Layout { cursor: self.next_cursor(extent) as i32, ..self }
    }

    /// A layout over `bounds` whose cursor stands at the start of its axis.
    pub fn new(bounds: Rect, direction: Direction) -> (layout: Layout)
        ensures
            layout == Layout::at_start(bounds, direction),
    {
        let cursor = match direction {
            Direction::LeftToRight => bounds.min.x,
            Direction::TopToBottom => bounds.min.y,
        };
        Layout { bounds, direction, cursor }
    }

    /// Hands out the next slot of `extent` pixels and moves the cursor past
    /// it. Where the region has less room left, the slot is cut short.
    pub fn allocate(&mut self, extent: u32) -> (slot: Rect)
        ensures
            slot == old(self).slot(extent),
            *final(self) == old(self).advanced(extent),
    {
        let limit: i32 = match self.direction {
            Direction::LeftToRight => self.bounds.max.x,
            Direction::TopToBottom => self.bounds.max.y,
        };
        let wanted: i64 = self.cursor as i64 + extent as i64;
        let end: i32 = if wanted <= limit as i64 {
            wanted as i32
        } else if self.cursor <= limit {
            limit
        } else {
            self.cursor
        };
        let slot = match self.direction {
            Direction::LeftToRight => Rect {
                min: Point { x: self.cursor, y: self.bounds.min.y },
                max: Point { x: end, y: self.bounds.max.y },
            },
            Direction::TopToBottom => Rect {
                min: Point { x: self.bounds.min.x, y: self.cursor },
                max: Point { x: self.bounds.max.x, y: end },
            },
        };
        self.cursor = end;
        slot
    }
}

} // verus!
