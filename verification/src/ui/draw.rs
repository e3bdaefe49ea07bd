//! How each entity is shown.

use crate::traits::{Coordinate, Position};
use crate::ui::{Command, Glyph};
use crate::unit::{Collectible, Enemy, Player, Wall};
use vstd::prelude::*;

verus! {

/// The face a player with `health` points shows: ten faces for one to
/// ten points, and no face at all outside that range.
pub open spec fn expression(health: u8) -> char {
    if health == 1 {
        '😭'
    } else if health == 2 {
        '😱'
    } else if health == 3 {
        '😨'
    } else if health == 4 {
        '😫'
    } else if health == 5 {
        '😩'
    } else if health == 6 {
        '😧'
    } else if health == 7 {
        '😖'
    } else if health == 8 {
        '😞'
    } else if health == 9 {
        '😑'
    } else if health == 10 {
        '😐'
    } else {
        '\0'
    }
}

/// The two instructions that show `glyph` in the cell nearest to a point.
pub open spec fn drawn<T: Coordinate>(x: T, y: T, glyph: Glyph) -> Seq<Command> {
    seq![Command::MoveTo(x.screen() as u16, y.screen() as u16), Command::Print(glyph)]
}

/// Something that can be shown on the grid.
pub trait Draw<T: Coordinate>: Position<T> {
    /// What the entity looks like.
    spec fn glyph(&self) -> Glyph;

    /// What the entity looks like.
    fn symbol(&self) -> (g: Glyph)
        ensures
            g == self.glyph(),
    ;

    /// Adds to `buffer` the instructions that show the entity in the cell
    /// nearest to its position.
    fn draw(&self, buffer: &mut Vec<Command>)
        ensures
            final(buffer)@ == old(buffer)@ + drawn(self.place().x, self.place().y, self.glyph()),
    {
        let position = self.position();
        buffer.push(Command::MoveTo(position.x.to_screen(), position.y.to_screen()));
        buffer.push(Command::Print(self.symbol()));
    }
}

impl Draw<i64> for Player {
    open spec fn glyph(&self) -> Glyph {
        Glyph::Player(expression(self@.health))
    }

    fn symbol(&self) -> (g: Glyph) {
        let health = self.health();
        let face = if health == 1 {
            '😭'
        } else if health == 2 {
            '😱'
        } else if health == 3 {
            '😨'
        } else if health == 4 {
            '😫'
        } else if health == 5 {
            '😩'
        } else if health == 6 {
            '😧'
        } else if health == 7 {
            '😖'
        } else if health == 8 {
            '😞'
        } else if health == 9 {
            '😑'
        } else if health == 10 {
            '😐'
        } else {
            '\0'
        };
        Glyph::Player(face)
    }
}

impl Draw<u16> for Collectible {
    open spec fn glyph(&self) -> Glyph {
        Glyph::Collectible
    }

    fn symbol(&self) -> (g: Glyph) {
        Glyph::Collectible
    }
}

impl Draw<u16> for Wall {
    open spec fn glyph(&self) -> Glyph {
        Glyph::Wall
    }

    fn symbol(&self) -> (g: Glyph) {
        Glyph::Wall
    }
}

impl Draw<i64> for Enemy {
    open spec fn glyph(&self) -> Glyph {
        Glyph::Enemy
    }

    fn symbol(&self) -> (g: Glyph) {
        Glyph::Enemy
    }
}

} // verus!
