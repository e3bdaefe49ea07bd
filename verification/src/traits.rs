//! What every entity on the grid can do: say where it is, be put
//! somewhere, and be put somewhere at random.

use crate::fixed::{cell, cell_index, round, round_coord};
use crate::point::Point2d;
use crate::random::uniform;
use rand::rngs::ThreadRng;
use std::ops::Range;
use vstd::prelude::*;

verus! {

/// A number that can serve as a coordinate and be drawn at random.
pub trait Coordinate: Copy + Sized {
    /// The number as a mathematical integer.
    spec fn value(self) -> int;

    /// Draws a value from the half-open `range`.
    fn sample(rng: &mut ThreadRng, range: Range<Self>) -> (v: Self)
        requires
            range.start.value() < range.end.value(),
        ensures
            range.start.value() <= v.value() < range.end.value(),
    ;

    /// The index of the grid cell nearest to the coordinate.
    spec fn screen(self) -> int;

    /// The index of the grid cell nearest to the coordinate, kept on the
    /// grid.
    fn to_screen(self) -> (index: u16)
        ensures
            index == self.screen(),
    ;
}

/// A grid index: a whole number of cells.
impl Coordinate for u16 {
    open spec fn value(self) -> int {
        self as int
    }

    fn sample(rng: &mut ThreadRng, range: Range<u16>) -> (v: u16) {
        let drawn: i64 = uniform(rng, range.start as i64, range.end as i64);
        drawn as u16
    }

    open spec fn screen(self) -> int {
        self as int
    }

    fn to_screen(self) -> (index: u16) {
        self
    }
}

/// A continuous coordinate, in million-millionths of a cell.
impl Coordinate for i64 {
    open spec fn value(self) -> int {
        self as int
    }

    fn sample(rng: &mut ThreadRng, range: Range<i64>) -> (v: i64) {
        uniform(rng, range.start, range.end)
    }

    open spec fn screen(self) -> int {
        cell_index(round_coord(self as int))
    }

    fn to_screen(self) -> (index: u16) {
        cell(round(self))
    }
}

/// Whether `v` lies in the half-open `range`.
pub open spec fn within<T: Coordinate>(range: Range<T>, v: T) -> bool {
    range.start.value() <= v.value() < range.end.value()
}

/// Something that has a place on the grid.
pub trait Position<T: Coordinate>: Sized + View {
    /// Where the entity is.
    spec fn place(&self) -> Point2d<T>;

    /// What the entity becomes when it is put at `position`.
    spec fn placed(&self, position: Point2d<T>) -> Self::V;

    /// Where the entity is.
    fn position(&self) -> (p: Point2d<T>)
        ensures
            p == self.place(),
    ;

    /// Puts the entity at `position`.
    fn set_position(&mut self, position: Point2d<T>)
        ensures
            final(self)@ == old(self).placed(position),
    ;

    /// Puts the entity at a point drawn at random, each coordinate from its
    /// own half-open range, facing sector 0.
    fn set_rand_position(&mut self, rng: &mut ThreadRng, x_range: Range<T>, y_range: Range<T>)
        requires
            x_range.start.value() < x_range.end.value(),
            y_range.start.value() < y_range.end.value(),
        ensures
            exists|x: T, y: T|
                within(x_range, x) && within(y_range, y) && final(self)@ == #[trigger] old(
                    self,
                ).placed(Point2d::at(x, y)),
    {
        let x = T::sample(rng, x_range);
        let y = T::sample(rng, y_range);
        self.set_position(Point2d::new(x, y));
    }
}

} // verus!
