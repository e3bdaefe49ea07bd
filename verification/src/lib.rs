//! The core of a chase game on a grid: a player steers through an arena of
//! walls, picks up a collectible for points, and is hunted by enemies that
//! cost it health.
//!
//! Everything here is exact integer arithmetic. A place on the continuous
//! plane is a pair of fixed-point coordinates, in million-millionths of a
//! cell; headings and speeds are counted in ten-thousandths. Coordinates
//! saturate at `fixed::COORD_LIMIT`, speeds and the score at the ends of
//! their types, so that no function here can overflow or panic.
//!
//! The library neither reads keys nor writes to a terminal nor looks at a
//! clock. A program that does hands each key and the time that has passed
//! to `game::Game::advance`, and carries out the instructions that
//! `game::Game::take_commands` hands back.

pub mod fixed;
pub mod game;
pub mod hud;
pub mod input;
pub mod point;
pub mod random;
pub mod traits;
pub mod ui;
pub mod unit;

pub use game::{Game, GameBuilder};
pub use point::Point2d;
