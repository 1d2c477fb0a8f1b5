//! Cell-grid geometry: positions and rectangles on a `u16` terminal grid.

use vstd::prelude::*;

verus! {

/// A cell position on the terminal grid.
#[derive(Debug, Clone, Copy, PartialEq, Eq, Hash, Structural)]
pub struct Position {
    /// Column.
    pub x: u16,
    /// Row.
    pub y: u16,
}

impl Default for Position {
    /// The origin.
    fn default() -> (r: Position)
        ensures
            r == (Position { x: 0, y: 0 }),
    {
        Position { x: 0, y: 0 }
    }
}

impl Position {
    /// Builds a position.
    pub fn new(x: u16, y: u16) -> (p: Position)
        ensures
            p.x == x,
            p.y == y,
    {
        Position { x, y }
    }
}

/// A rectangle of cells: origin plus extent.
#[derive(Debug, Clone, Copy, PartialEq, Eq, Hash, Structural)]
pub struct Rect {
    /// Left column.
    pub x: u16,
    /// Top row.
    pub y: u16,
    /// Width in cells.
    pub width: u16,
    /// Height in cells.
    pub height: u16,
}

impl Default for Rect {
    /// The empty rectangle at the origin.
    fn default() -> (r: Rect)
        ensures
            r == (Rect { x: 0, y: 0, width: 0, height: 0 }),
    {
        Rect { x: 0, y: 0, width: 0, height: 0 }
    }
}

/// `a + b`, saturated at `u16::MAX`.
pub open spec fn sat_add(a: int, b: int) -> int {
    if a + b > u16::MAX { u16::MAX as int } else { a + b }
}

/// `r` covers only cells of `a`.
pub open spec fn rect_inside(r: Rect, a: Rect) -> bool {
    &&& a.x <= r.x
    &&& r.x + r.width <= a.right_spec()
    &&& a.y <= r.y
    &&& r.y + r.height <= a.bottom_spec()
}

/// `a - b`, floored at zero.
pub open spec fn sat_sub(a: int, b: int) -> int {
    if a - b < 0 { 0 } else { a - b }
}

impl Rect {
    /// The empty rectangle at the origin.
    pub open spec fn zero_spec() -> Rect {
        Rect { x: 0, y: 0, width: 0, height: 0 }
    }

    /// Exclusive right edge (saturating).
    pub open spec fn right_spec(self) -> int {
        sat_add(self.x as int, self.width as int)
    }

    /// Exclusive bottom edge (saturating).
    pub open spec fn bottom_spec(self) -> int {
        sat_add(self.y as int, self.height as int)
    }

    /// Whether the cell `p` lies inside.
    pub open spec fn contains_spec(self, p: Position) -> bool {
        &&& self.x <= p.x
        &&& p.x < self.right_spec()
        &&& self.y <= p.y
        &&& p.y < self.bottom_spec()
    }

    /// The rectangle at `(x, y)` with its extent clipped so that the far
    /// edges stay on the grid.
    pub open spec fn new_spec(x: u16, y: u16, width: int, height: int) -> Rect {
        Rect {
            x,
            y,
            width: (sat_add(x as int, width) - x) as u16,
            height: (sat_add(y as int, height) - y) as u16,
        }
    }

    /// Builds a rectangle, clipping the extent so that the far edges stay on
    /// the grid.
    pub fn new(x: u16, y: u16, width: u16, height: u16) -> (r: Rect)
        ensures
            r == Rect::new_spec(x, y, width as int, height as int),
            r.x == x,
            r.y == y,
            r.width == sat_add(x as int, width as int) - x,
            r.height == sat_add(y as int, height as int) - y,
    {
        let w = x.saturating_add(width) - x;
        let h = y.saturating_add(height) - y;
        Rect { x, y, width: w, height: h }
    }

    /// The empty rectangle at the origin.
    pub fn zero() -> (r: Rect)
        ensures
            r == Rect::zero_spec(),
    {
        Rect { x: 0, y: 0, width: 0, height: 0 }
    }

    /// True when the rectangle covers no cell.
    pub fn is_empty(&self) -> (b: bool)
        ensures
            b == (self.width == 0 || self.height == 0),
    {
        self.width == 0 || self.height == 0
    }

    /// Exclusive right edge.
    pub fn right(&self) -> (r: u16)
        ensures
            r == self.right_spec(),
    {
        self.x.saturating_add(self.width)
    }

    /// Exclusive bottom edge.
    pub fn bottom(&self) -> (r: u16)
        ensures
            r == self.bottom_spec(),
    {
        self.y.saturating_add(self.height)
    }

    /// Whether the cell lies inside.
    pub fn contains(&self, p: Position) -> (b: bool)
        ensures
            b == self.contains_spec(p),
    {
        self.x <= p.x && p.x < self.right() && self.y <= p.y && p.y < self.bottom()
    }
}

} // verus!
