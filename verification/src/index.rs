//! Grid coordinates: a point in the terminal grid, the half of a cell the
//! pointer occupies, and a search direction.
//!
//! A line index is signed: line 0 is the top of the viewport and negative
//! lines lie in the scrollback history above it.

use vstd::prelude::*;

verus! {

/// A cell position in the terminal grid.
#[derive(Clone, Copy, PartialEq, Eq, Structural, Debug)]
pub struct Point {
    /// Grid line; negative values are scrollback history.
    pub line: i32,
    /// Grid column, counted from 0.
    pub column: usize,
}

impl Point {
    pub fn new(line: i32, column: usize) -> (r: Point)
        ensures
            r.line == line && r.column == column,
    {
        Point { line, column }
    }
}

/// Which half of a glyph cell a position falls in.
#[derive(Clone, Copy, PartialEq, Eq, Structural, Debug)]
pub enum Side {
    Left,
    Right,
}

/// A horizontal search direction.
#[derive(Clone, Copy, PartialEq, Eq, Structural, Debug)]
pub enum Direction {
    Left,
    Right,
}

impl Direction {
    /// The other direction.
    pub fn opposite(&self) -> (r: Direction)
        ensures
            r == (if *self == Direction::Left {
                Direction::Right
            } else {
                Direction::Left
            }),
    {
        match self {
            Direction::Left => Direction::Right,
            Direction::Right => Direction::Left,
        }
    }
}

} // verus!
