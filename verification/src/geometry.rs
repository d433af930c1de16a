//! Rectangles of terminal cells.

use vstd::prelude::*;

verus! {

/// The axis along which an area is cut into pieces.
#[derive(Clone, Copy, Debug, PartialEq, Eq, Structural)]
pub enum Direction {
    /// Pieces stand side by side, left to right.
    Horizontal,
    /// Pieces are stacked, top to bottom.
    Vertical,
}

/// An axis-aligned rectangle of cells: its top-left corner and its size.
#[derive(Clone, Copy, Debug, PartialEq, Eq, Structural)]
pub struct Rect {
    pub x: u16,
    pub y: u16,
    pub width: u16,
    pub height: u16,
}

impl Rect {
    /// The column just past the last one.
    pub open spec fn right(self) -> int {
        self.x + self.width
    }

    /// The row just past the last one.
    pub open spec fn bottom(self) -> int {
        self.y + self.height
    }

    /// Both far edges are coordinates a terminal can address.
    pub open spec fn on_screen(self) -> bool {
        self.right() <= u16::MAX && self.bottom() <= u16::MAX
    }

    /// The rectangle holds no cell.
    pub open spec fn is_empty(self) -> bool {
        self.width == 0 || self.height == 0
    }

    /// The cell in column `cx`, row `cy` belongs to the rectangle.
    pub open spec fn covers(self, cx: int, cy: int) -> bool {
        self.x <= cx < self.right() && self.y <= cy < self.bottom()
    }

    /// The rectangle does not reach past any edge of `outer`.
    pub open spec fn within(self, outer: Rect) -> bool {
        &&& outer.x <= self.x
        &&& self.right() <= outer.right()
        &&& outer.y <= self.y
        &&& self.bottom() <= outer.bottom()
    }

    /// Where the rectangle begins along `direction`.
    pub open spec fn start(self, direction: Direction) -> int {
        match direction {
            Direction::Horizontal => self.x as int,
            Direction::Vertical => self.y as int,
        }
    }

    /// How far the rectangle extends along `direction`.
    pub open spec fn span(self, direction: Direction) -> int {
        match direction {
            Direction::Horizontal => self.width as int,
            Direction::Vertical => self.height as int,
        }
    }

    /// Where the rectangle ends along `direction`.
    pub open spec fn end(self, direction: Direction) -> int {
        self.start(direction) + self.span(direction)
    }

    /// What is left of the rectangle once `margin` rows are taken off its top
    /// and off its bottom. A rectangle too low for both margins leaves the
    /// empty rectangle at the origin.
    pub open spec fn shrunk(self, margin: u16) -> Rect {
        if self.height < 2 * margin {
            Rect { x: 0, y: 0, width: 0, height: 0 }
        } else {
            Rect {
                x: self.x,
                y: (self.y + margin) as u16,
                width: self.width,
                height: (self.height - 2 * margin) as u16,
            }
        }
    }

    /// The part of the rectangle that begins at `start` and extends over
    /// `span` cells along `direction`; across it is the rectangle itself.
    pub open spec fn strip(self, direction: Direction, start: int, span: int) -> Rect {
        match direction {
            Direction::Horizontal => Rect {
                x: start as u16,
                y: self.y,
                width: span as u16,
                height: self.height,
            },
            Direction::Vertical => Rect {
                x: self.x,
                y: start as u16,
                width: self.width,
                height: span as u16,
            },
        }
    }

    /// Takes `margin` rows off the top and off the bottom.
    pub fn inner(self, margin: u16) -> (r: Rect)
        requires
            self.on_screen(),
        ensures
            r == self.shrunk(margin),
            r.on_screen(),
    {
        if margin > self.height / 2 {
            Rect { x: 0, y: 0, width: 0, height: 0 }
        } else {
            Rect {
                x: self.x,
                y: self.y + margin,
                width: self.width,
                height: self.height - 2 * margin,
            }
        }
    }

    /// The rectangle with this corner and this size.
    pub fn new(x: u16, y: u16, width: u16, height: u16) -> (r: Rect)
        ensures
            r == (Rect { x, y, width, height }),
    {
        Rect { x, y, width, height }
    }
}

/// A rectangle that lies within another covers only cells of the other.
pub proof fn lemma_within_covers(inner: Rect, outer: Rect, cx: int, cy: int)
    requires
        inner.within(outer),
        inner.covers(cx, cy),
    ensures
        outer.covers(cx, cy),
{
}

} // verus!
