//! The collectible.

use crate::point::Point2d;
use crate::traits::Position;
use vstd::prelude::*;

verus! {

/// The item the player is after. It fills one grid cell.
pub struct Collectible {
    position: Point2d<u16>,
}

impl View for Collectible {
    type V = Point2d<u16>;

    /// The cell the item lies in.
    closed spec fn view(&self) -> Point2d<u16> {
        self.position
    }
}

impl Collectible {
    /// A collectible in cell `(x, y)`.
    pub fn new(x: u16, y: u16) -> (c: Collectible)
        ensures
            c@ == Point2d::<u16>::at(x, y),
    {
        Self { position: Point2d::new(x, y) }
    }
}

/// A collectible in cell `(0, 0)`.
impl Default for Collectible {
    fn default() -> (c: Collectible)
        ensures
            c@ == Point2d::<u16>::at(0, 0),
    {
        Self::new(0, 0)
    }
}

impl Position<u16> for Collectible {
    open spec fn place(&self) -> Point2d<u16> {
        self@
    }

    open spec fn placed(&self, position: Point2d<u16>) -> Point2d<u16> {
        position
    }

    fn position(&self) -> (p: Point2d<u16>) {
        self.position
    }

    fn set_position(&mut self, position: Point2d<u16>) {
        self.position = position;
    }
}

} // verus!
