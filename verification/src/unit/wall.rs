//! Walls.

use crate::fixed::{cell, cell_index, UNIT};
use crate::point::Point2d;
use crate::traits::Position;
use vstd::prelude::*;

verus! {

/// An obstacle that fills one grid cell.
pub struct Wall {
    position: Point2d<u16>,
}

impl View for Wall {
    type V = Point2d<u16>;

    /// The cell the wall fills.
    closed spec fn view(&self) -> Point2d<u16> {
        self.position
    }
}

impl Wall {
    /// A wall in cell `(x, y)`.
    pub fn new(x: u16, y: u16) -> (w: Wall)
        ensures
            w@ == Point2d::<u16>::at(x, y),
    {
        Self { position: Point2d::new(x, y) }
    }
}

/// A wall in cell `(0, 0)`.
impl Default for Wall {
    fn default() -> (w: Wall)
        ensures
            w@ == Point2d::<u16>::at(0, 0),
    {
        Self::new(0, 0)
    }
}

impl Position<u16> for Wall {
    open spec fn place(&self) -> Point2d<u16> {
        self@
    }

    open spec fn placed(&self, position: Point2d<u16>) -> Point2d<u16> {
        position
    }

    fn position(&self) -> (p: Point2d<u16>) {
        self.position
    }

    fn set_position(&mut self, position: Point2d<u16>) {
        self.position = position;
    }
}

/// The wall seen on the continuous plane: it stands at the corner of its
/// cell, and a point it is sent to is cut down to the cell that holds it.
impl Position<i64> for Wall {
    open spec fn place(&self) -> Point2d<i64> {
        Point2d::<i64>::at(
            (self@.x * 1_000_000_000_000) as i64,
            (self@.y * 1_000_000_000_000) as i64,
        )
    }

    open spec fn placed(&self, position: Point2d<i64>) -> Point2d<u16> {
        Point2d {
            x: cell_index(position.x as int) as u16,
            y: cell_index(position.y as int) as u16,
            direction: self@.direction,
        }
    }

    fn position(&self) -> (p: Point2d<i64>) {
        Point2d::new(self.position.x as i64 * UNIT, self.position.y as i64 * UNIT)
    }

    fn set_position(&mut self, position: Point2d<i64>) {
        self.position.x = cell(position.x);
        self.position.y = cell(position.y);
    }
}

} // verus!
