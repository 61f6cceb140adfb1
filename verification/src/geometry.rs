//! Screen geometry shared by the alt-screen element and mouse reporting.
use vstd::prelude::*;

verus! {

/// A cell position reported by the TUI event loop (column `x`, row `y`).
#[derive(Clone, Copy, Debug, PartialEq, Eq, Structural)]
pub struct TuiPoint {
    pub x: u16,
    pub y: u16,
}

impl TuiPoint {
    pub fn new(x: u16, y: u16) -> (p: TuiPoint)
        ensures
            p.x == x,
            p.y == y,
    {
        TuiPoint { x, y }
    }
}

/// An absolute position on the screen, as retained after painting.
#[derive(Clone, Copy, Debug, PartialEq, Eq, Structural)]
pub struct TuiScreenPoint {
    pub x: i32,
    pub y: i32,
}

impl TuiScreenPoint {
    pub fn new(x: i32, y: i32) -> (p: TuiScreenPoint)
        ensures
            p.x == x,
            p.y == y,
    {
        TuiScreenPoint { x, y }
    }
}

/// A size in terminal cells.
#[derive(Clone, Copy, Debug, PartialEq, Eq, Structural)]
pub struct TuiSize {
    pub width: u16,
    pub height: u16,
}

impl TuiSize {
    pub fn new(width: u16, height: u16) -> (s: TuiSize)
        ensures
            s.width == width,
            s.height == height,
    {
        TuiSize { width, height }
    }
}

/// Layout constraint handed down by the parent element.
#[derive(Clone, Copy, Debug, PartialEq, Eq, Structural)]
pub struct TuiConstraint {
    pub min: TuiSize,
    pub max: TuiSize,
}

impl TuiConstraint {
    /// A constraint that allows anything from nothing up to `max`.
    pub fn loose(max: TuiSize) -> (c: TuiConstraint)
        ensures
            c.min.width == 0 && c.min.height == 0,
            c.max == max,
    {
        TuiConstraint { min: TuiSize { width: 0, height: 0 }, max }
    }
}

/// A retained screen rectangle: where an element was painted and how large it is.
#[derive(Clone, Copy, Debug, PartialEq, Eq, Structural)]
pub struct TuiScreenRect {
    pub origin: TuiScreenPoint,
    pub size: TuiSize,
}

/// Whether `position` lies inside the half-open rectangle `bounds`.
pub open spec fn rect_contains(bounds: TuiScreenRect, position: TuiPoint) -> bool {
    &&& bounds.origin.x <= position.x < bounds.origin.x + bounds.size.width
    &&& bounds.origin.y <= position.y < bounds.origin.y + bounds.size.height
}

impl TuiScreenRect {
    pub fn new(origin: TuiScreenPoint, size: TuiSize) -> (r: TuiScreenRect)
        ensures
            r.origin == origin,
            r.size == size,
    {
        TuiScreenRect { origin, size }
    }

    /// Hit-tests a cell position against this rectangle.
    pub fn contains(&self, position: TuiPoint) -> (b: bool)
        ensures
            b == rect_contains(*self, position),
    {
        let x = position.x as i64;
        let y = position.y as i64;
        let ox = self.origin.x as i64;
        let oy = self.origin.y as i64;
        ox <= x && x < ox + self.size.width as i64 && oy <= y && y < oy + self.size.height as i64
    }
}

/// A cell of the alt-screen grid, relative to its top-left corner.
#[derive(Clone, Copy, Debug, PartialEq, Eq, Structural)]
pub struct Point {
    pub row: usize,
    pub col: usize,
}

impl Point {
    pub fn new(row: usize, col: usize) -> (p: Point)
        ensures
            p.row == row,
            p.col == col,
    {
        Point { row, col }
    }
}

/// The grid cell under `position`, or `None` when it lies outside `bounds`.
pub open spec fn spec_cell_point(position: TuiPoint, bounds: TuiScreenRect) -> Option<Point> {
    if rect_contains(bounds, position) {
        Some(
            Point {
                row: (position.y - bounds.origin.y) as usize,
                col: (position.x - bounds.origin.x) as usize,
            },
        )
    } else {
        None
    }
}

/// Converts an in-bounds screen position to alt-screen grid coordinates.
pub fn cell_point(position: TuiPoint, bounds: TuiScreenRect) -> (p: Option<Point>)
    ensures
        p == spec_cell_point(position, bounds),
        p matches Some(q) ==> q.row < bounds.size.height && q.col < bounds.size.width,
{
    if !bounds.contains(position) {
        return None;
    }
    let row = (position.y as i64 - bounds.origin.y as i64) as usize;
    let col = (position.x as i64 - bounds.origin.x as i64) as usize;
    Some(Point::new(row, col))
}

} // verus!
