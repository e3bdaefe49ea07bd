//! Points with a heading: where something is and which of eight ways it
//! faces.

use crate::fixed::{
    cell, cell_index, clamp, clamp_coord, displacement, round, round_coord, step, COORD_LIMIT,
};
use vstd::prelude::*;

verus! {

/// Length of an axis-aligned heading component, in ten-thousandths.
pub const AXIS: i32 = 10_000;

/// Length of each component of a diagonal heading, in ten-thousandths.
pub const DIAGONAL: i32 = 7_061;

/// The heading vector that belongs to a sector, in ten-thousandths.
pub open spec fn heading_vector(sector: int) -> (int, int) {
    if sector == 0 {
        (10_000, 0)
    } else if sector == 1 {
        (7_061, 7_061)
    } else if sector == 2 {
        (0, 10_000)
    } else if sector == 3 {
        (-7_061, 7_061)
    } else if sector == 4 {
        (-10_000, 0)
    } else if sector == 5 {
        (-7_061, -7_061)
    } else if sector == 6 {
        (0, -10_000)
    } else if sector == 7 {
        (7_061, -7_061)
    } else {
        (0, 0)
    }
}

/// The sector reached from `sector` by one turn.
pub open spec fn turned(sector: int, turn: int) -> int {
    (8 + sector + turn) % 8
}

/// A heading: a vector in ten-thousandths and the sector it belongs to.
#[derive(Clone, Copy, Debug, PartialEq, Eq, Structural)]
pub struct Heading {
    pub dx: i32,
    pub dy: i32,
    pub sector: i8,
}

/// The sector whose table vector is `(x, y)`, if there is one.
pub open spec fn sector_of(x: int, y: int) -> Option<int> {
    if x == 10_000 && y == 0 {
        Some(0)
    } else if x == 7_061 && y == 7_061 {
        Some(1)
    } else if x == 0 && y == 10_000 {
        Some(2)
    } else if x == -7_061 && y == 7_061 {
        Some(3)
    } else if x == -10_000 && y == 0 {
        Some(4)
    } else if x == -7_061 && y == -7_061 {
        Some(5)
    } else if x == 0 && y == -10_000 {
        Some(6)
    } else if x == 7_061 && y == -7_061 {
        Some(7)
    } else {
        None
    }
}

impl Heading {
    /// Whether the heading is one of the eight table entries.
    pub open spec fn valid(self) -> bool {
        &&& 0 <= self.sector <= 7
        &&& (self.dx as int, self.dy as int) == heading_vector(self.sector as int)
    }

    /// The heading along the vector `(x, y)`: the table entry with that
    /// vector, or, where the table has none, the entry of sector 0.
    pub open spec fn along(x: i32, y: i32) -> Heading {
        match sector_of(x as int, y as int) {
            Some(sector) => Heading { dx: x, dy: y, sector: sector as i8 },
            None => Heading { dx: 10_000, dy: 0, sector: 0 },
        }
    }

    /// The heading along the vector `(x, y)`: the table entry with that
    /// vector, or, where the table has none, the entry of sector 0.
    pub fn toward(x: i32, y: i32) -> (h: Heading)
        ensures
            h == Self::along(x, y),
            h.valid(),
    {
        let sector: i8 = if x == AXIS && y == 0 {
            0
        } else if x == DIAGONAL && y == DIAGONAL {
            1
        } else if x == 0 && y == AXIS {
            2
        } else if x == -DIAGONAL && y == DIAGONAL {
            3
        } else if x == -AXIS && y == 0 {
            4
        } else if x == -DIAGONAL && y == -DIAGONAL {
            5
        } else if x == 0 && y == -AXIS {
            6
        } else if x == DIAGONAL && y == -DIAGONAL {
            7
        } else {
            return Heading { dx: AXIS, dy: 0, sector: 0 };
        };
        Heading { dx: x, dy: y, sector }
    }
}

/// `sector_of` finds exactly the sectors of the table: it gives `sector`
/// for `(x, y)` if and only if `sector` lies in `0..=7` and `(x, y)` is its
/// table vector.
pub proof fn lemma_sector_of(x: int, y: int, sector: int)
    ensures
        sector_of(x, y) == Some(sector) <==> 0 <= sector <= 7 && heading_vector(sector) == (x, y),
{
}

/// A place on the grid together with the way it faces. With `u16`
/// coordinates it is a grid cell; with `i64` coordinates, counted in
/// million-millionths of a cell, a place on the continuous plane.
#[derive(Clone, Copy, Debug, PartialEq, Eq, Structural)]
pub struct Point2d<T> {
    pub x: T,
    pub y: T,
    pub direction: Heading,
}

impl<T> Point2d<T> {
    /// The point at `(x, y)` facing sector 0.
    pub open spec fn at(x: T, y: T) -> Self {
        Point2d { x, y, direction: Heading { dx: 10_000, dy: 0, sector: 0 } }
    }

    /// Whether the heading is one of the eight table entries.
    pub open spec fn heading_valid(self) -> bool {
        self.direction.valid()
    }

    /// The point at `(x, y)` facing sector 0.
    pub fn new(x: T, y: T) -> (p: Self)
        ensures
            p == Self::at(x, y),
            p.heading_valid(),
    {
        Point2d { x, y, direction: Heading { dx: AXIS, dy: 0, sector: 0 } }
    }
}

impl Default for Point2d<u16> {
    /// The cell `(0, 0)`, facing sector 0.
    fn default() -> (p: Self)
        ensures
            p == Self::at(0, 0),
    {
        Self::new(0, 0)
    }
}

impl Default for Point2d<i64> {
    /// The corner of cell `(0, 0)`, facing sector 0.
    fn default() -> (p: Self)
        ensures
            p == Self::at(0, 0),
    {
        Self::new(0, 0)
    }
}

impl Point2d<i64> {
    /// Whether both coordinates lie within the representable range.
    pub open spec fn in_limits(self) -> bool {
        &&& -COORD_LIMIT <= self.x <= COORD_LIMIT
        &&& -COORD_LIMIT <= self.y <= COORD_LIMIT
    }

    /// The point with its coordinates brought into the representable range.
    pub open spec fn clamped(self) -> Self {
        Point2d {
            x: clamp_coord(self.x as int) as i64,
            y: clamp_coord(self.y as int) as i64,
            direction: self.direction,
        }
    }

    /// The point reached by one step of length `speed` along the heading.
    pub open spec fn moved(self, speed: int) -> Self {
        Point2d {
            x: clamp_coord(self.x + displacement(self.direction.dx as int, speed)) as i64,
            y: clamp_coord(self.y + displacement(self.direction.dy as int, speed)) as i64,
            direction: self.direction,
        }
    }

    /// The point after one turn: the next sector with its table vector.
    pub open spec fn rotated(self, turn: int) -> Self {
        let sector = turned(self.direction.sector as int, turn);
        Point2d {
            x: self.x,
            y: self.y,
            direction: Heading {
                dx: heading_vector(sector).0 as i32,
                dy: heading_vector(sector).1 as i32,
                sector: sector as i8,
            },
        }
    }

    /// The grid cell that holds the point.
    pub open spec fn cell(self) -> Point2d<u16> {
        Point2d::<u16>::at(cell_index(self.x as int) as u16, cell_index(self.y as int) as u16)
    }

    /// The point moved to the nearest whole cell, facing sector 0.
    pub open spec fn rounded(self) -> Self {
        Self::at(round_coord(self.x as int) as i64, round_coord(self.y as int) as i64)
    }

    /// Moves the point one step of length `speed` along its heading.
    pub fn move_forward(&mut self, speed: i32)
        ensures
            *final(self) == old(self).moved(speed as int),
            final(self).in_limits(),
    {
        let step_x: i128 = step(self.direction.dx, speed);
        let step_y: i128 = step(self.direction.dy, speed);
        self.x = clamp(self.x as i128 + step_x);
        self.y = clamp(self.y as i128 + step_y);
    }

    /// Where one step of length `speed` along the heading would lead. The
    /// result faces sector 0, and the point itself stays.
    pub fn simulate_move_forward(&self, speed: i32) -> (p: Self)
        ensures
            p == Self::at(self.moved(speed as int).x, self.moved(speed as int).y),
            p.in_limits(),
    {
        let step_x: i128 = step(self.direction.dx, speed);
        let step_y: i128 = step(self.direction.dy, speed);
        Self::new(clamp(self.x as i128 + step_x), clamp(self.y as i128 + step_y))
    }

    /// Turns by one sector: to the left for `-1`, to the right for `1`.
    /// The new sector is `(8 + sector + turn) mod 8`, so that any turn, from
    /// any heading, ends on a heading of the table.
    pub fn update_direction(&mut self, turn: i8)
        ensures
            *final(self) == old(self).rotated(turn as int),
            final(self).heading_valid(),
    {
        let raw: i32 = 8 + self.direction.sector as i32 + turn as i32;
        let sector: i32 = (raw + 256) % 8;
        self.direction.sector = sector as i8;
        if sector == 0 {
            self.direction.dx = AXIS;
            self.direction.dy = 0;
        } else if sector == 1 {
            self.direction.dx = DIAGONAL;
            self.direction.dy = DIAGONAL;
        } else if sector == 2 {
            self.direction.dx = 0;
            self.direction.dy = AXIS;
        } else if sector == 3 {
            self.direction.dx = -DIAGONAL;
            self.direction.dy = DIAGONAL;
        } else if sector == 4 {
            self.direction.dx = -AXIS;
            self.direction.dy = 0;
        } else if sector == 5 {
            self.direction.dx = -DIAGONAL;
            self.direction.dy = -DIAGONAL;
        } else if sector == 6 {
            self.direction.dx = 0;
            self.direction.dy = -AXIS;
        } else {
            self.direction.dx = DIAGONAL;
            self.direction.dy = -DIAGONAL;
        }
    }

    /// The grid cell that holds the point: fractions are cut off, and what
    /// lies beyond the grid goes to its nearest edge.
    pub fn to_u16(&self) -> (c: Point2d<u16>)
        ensures
            c == self.cell(),
    {
        Point2d::new(cell(self.x), cell(self.y))
    }

    /// The point moved to the nearest whole cell, facing sector 0.
    pub fn round(&self) -> (p: Self)
        ensures
            p == self.rounded(),
            p.in_limits(),
    {
        Self::new(round(self.x), round(self.y))
    }
}

impl core::ops::Sub for Point2d<i64> {
    type Output = Self;

    /// The difference of two points, component by component, heading
    /// included. It is a direction from `other` to `self`, not a place.
    fn sub(self, other: Self) -> (d: Self) {
        Point2d {
            x: self.x - other.x,
            y: self.y - other.y,
            direction: Heading {
                dx: self.direction.dx - other.direction.dx,
                dy: self.direction.dy - other.direction.dy,
                sector: self.direction.sector - other.direction.sector,
            },
        }
    }
}

/// What `-` means on points: each component of the result must fit its
/// type.
impl vstd::std_specs::ops::SubSpecImpl for Point2d<i64> {
    open spec fn obeys_sub_spec() -> bool {
        true
    }

    open spec fn sub_req(self, other: Self) -> bool {
        &&& i64::MIN <= self.x - other.x <= i64::MAX
        &&& i64::MIN <= self.y - other.y <= i64::MAX
        &&& i32::MIN <= self.direction.dx - other.direction.dx <= i32::MAX
        &&& i32::MIN <= self.direction.dy - other.direction.dy <= i32::MAX
        &&& i8::MIN <= self.direction.sector - other.direction.sector <= i8::MAX
    }

    open spec fn sub_spec(self, other: Self) -> Self {
        Point2d {
            x: (self.x - other.x) as i64,
            y: (self.y - other.y) as i64,
            direction: Heading {
                dx: (self.direction.dx - other.direction.dx) as i32,
                dy: (self.direction.dy - other.direction.dy) as i32,
                sector: (self.direction.sector - other.direction.sector) as i8,
            },
        }
    }
}

/// The sector reached from `sector` by `n` turns of the same kind.
pub open spec fn turned_times(sector: int, turn: int, n: nat) -> int
    decreases n,
{
    if n == 0 {
        sector
    } else {
        turned(turned_times(sector, turn, (n - 1) as nat), turn)
    }
}

impl Point2d<i64> {
    /// The point after `n` turns of the same kind.
    pub open spec fn rotated_times(self, turn: int, n: nat) -> Self
        decreases n,
    {
        if n == 0 {
            self
        } else {
            self.rotated_times(turn, (n - 1) as nat).rotated(turn)
        }
    }

    /// The point after the turns of `turns`, taken in order.
    pub open spec fn rotated_by(self, turns: Seq<int>) -> Self
        decreases turns.len(),
    {
        if turns.len() == 0 {
            self
        } else {
            self.rotated_by(turns.drop_last()).rotated(turns.last())
        }
    }
}

/// A turn always lands on a sector of the table.
pub proof fn lemma_turned_in_range(sector: int, turn: int)
    ensures
        0 <= turned(sector, turn) <= 7,
{
}

/// `n` turns of one kind move the sector by `n` steps around the circle.
pub proof fn lemma_turned_times_closed(sector: int, turn: int, n: nat)
    requires
        0 <= sector <= 7,
    ensures
        turned_times(sector, turn, n) == (sector + turn * n) % 8,
        0 <= turned_times(sector, turn, n) <= 7,
    decreases n,
{
    if n == 0 {
    } else {
        let m = (n - 1) as nat;
        lemma_turned_times_closed(sector, turn, m);
        assert(turn * n == turn * m + turn) by (nonlinear_arith)
            requires
                n == m + 1,
        ;
    }
}

/// Turning `n` times one way and then `n` times the other way restores the
/// sector.
pub proof fn lemma_turns_cancel(sector: int, turn: int, n: nat)
    requires
        0 <= sector <= 7,
    ensures
        turned_times(turned_times(sector, turn, n), -turn, n) == sector,
{
    lemma_turned_times_closed(sector, turn, n);
    let mid = turned_times(sector, turn, n);
    lemma_turned_times_closed(mid, -turn, n);
    assert((-turn) * n == -(turn * n)) by (nonlinear_arith);
}

/// Every point reached by at least one turn has a sector within `0..=7` and
/// the table vector of that sector, whatever heading it started with.
pub proof fn lemma_heading_after_turns(p: Point2d<i64>, turns: Seq<int>)
    requires
        turns.len() > 0,
    ensures
        p.rotated_by(turns).heading_valid(),
{
    lemma_turned_in_range(p.rotated_by(turns.drop_last()).direction.sector as int, turns.last());
}

/// A point with a table heading that turns `n` times one way and then `n`
/// times the other way is the point it was.
pub proof fn lemma_rotations_cancel(p: Point2d<i64>, turn: int, n: nat)
    requires
        p.heading_valid(),
    ensures
        p.rotated_times(turn, n).rotated_times(-turn, n) == p,
{
    lemma_rotated_times_sector(p, turn, n);
    let q = p.rotated_times(turn, n);
    lemma_rotated_times_sector(q, -turn, n);
    lemma_turns_cancel(p.direction.sector as int, turn, n);
}

/// Turns leave the coordinates alone and move the sector as
/// `turned_times` says, keeping the heading within the table.
pub proof fn lemma_rotated_times_sector(p: Point2d<i64>, turn: int, n: nat)
    requires
        p.heading_valid(),
    ensures
        p.rotated_times(turn, n).heading_valid(),
        p.rotated_times(turn, n).x == p.x,
        p.rotated_times(turn, n).y == p.y,
        p.rotated_times(turn, n).direction.sector == turned_times(
            p.direction.sector as int,
            turn,
            n,
        ),
    decreases n,
{
    if n > 0 {
        lemma_rotated_times_sector(p, turn, (n - 1) as nat);
        lemma_turned_times_closed(p.direction.sector as int, turn, (n - 1) as nat);
    }
}

} // verus!
