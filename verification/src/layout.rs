//! Rectangles of terminal cells.

use vstd::prelude::*;

verus! {

/// A rectangle of terminal cells: the column and the row of its top left
/// cell, and its size.
#[derive(Clone, Copy, Debug, PartialEq, Eq, Hash, Structural)]
pub struct Rect {
    pub x: u16,
    pub y: u16,
    pub width: u16,
    pub height: u16,
}

/// The space left free inside a rectangle, on each side.
#[derive(Clone, Copy, Debug, PartialEq, Eq, Hash, Structural)]
pub struct Margin {
    pub horizontal: u16,
    pub vertical: u16,
}

/// The sum of two coordinates, held at the largest coordinate.
pub open spec fn saturating_sum(a: u16, b: u16) -> u16 {
    if a + b > u16::MAX {
        u16::MAX
    } else {
        (a + b) as u16
    }
}

/// Twice a margin, held at the largest coordinate.
pub open spec fn doubled(margin: u16) -> u16 {
    if 2 * margin > u16::MAX {
        u16::MAX
    } else {
        (2 * margin) as u16
    }
}

impl Rect {
    /// The rectangle at `(x, y)` of the given size, made smaller where its
    /// right or bottom edge would pass the largest coordinate.
    pub open spec fn spec_new(x: u16, y: u16, width: u16, height: u16) -> Rect {
        Rect {
            x,
            y,
            width: (saturating_sum(x, width) - x) as u16,
            height: (saturating_sum(y, height) - y) as u16,
        }
    }

    /// The rectangle inside this one that leaves the margin free on each
    /// side; a rectangle without area where the margin does not fit.
    pub open spec fn spec_inner(self, margin: Margin) -> Rect {
        if self.width < doubled(margin.horizontal) || self.height < doubled(margin.vertical) {
            Rect { x: 0, y: 0, width: 0, height: 0 }
        } else {
            Rect {
                x: saturating_sum(self.x, margin.horizontal),
                y: saturating_sum(self.y, margin.vertical),
                width: (self.width - doubled(margin.horizontal)) as u16,
                height: (self.height - doubled(margin.vertical)) as u16,
            }
        }
    }

    /// The rectangle at `(x, y)` of the given size, made smaller where its
    /// right or bottom edge would pass the largest coordinate.
    pub fn new(x: u16, y: u16, width: u16, height: u16) -> (rect: Rect)
        ensures
            rect == Rect::spec_new(x, y, width, height),
            rect.x + rect.width <= u16::MAX,
            rect.y + rect.height <= u16::MAX,
    {
        Rect {
            x,
            y,
            width: x.saturating_add(width) - x,
            height: y.saturating_add(height) - y,
        }
    }

    /// The row below the last row of the rectangle.
    pub fn bottom(&self) -> (row: u16)
        ensures
            row == saturating_sum(self.y, self.height),
    {
        self.y.saturating_add(self.height)
    }

    /// The rectangle inside this one that leaves the margin free on each
    /// side; a rectangle without area where the margin does not fit.
    pub fn inner(&self, margin: Margin) -> (rect: Rect)
        ensures
            rect == self.spec_inner(margin),
    {
        let doubled_horizontal = if margin.horizontal > u16::MAX / 2 {
            u16::MAX
        } else {
            margin.horizontal * 2
        };
        let doubled_vertical = if margin.vertical > u16::MAX / 2 {
            u16::MAX
        } else {
            margin.vertical * 2
        };
        if self.width < doubled_horizontal || self.height < doubled_vertical {
            Rect { x: 0, y: 0, width: 0, height: 0 }
        } else {
            Rect {
                x: self.x.saturating_add(margin.horizontal),
                y: self.y.saturating_add(margin.vertical),
                width: self.width - doubled_horizontal,
                height: self.height - doubled_vertical,
            }
        }
    }
}

} // verus!
