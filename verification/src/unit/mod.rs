//! The entities of the game.

pub mod collectible;
pub mod enemy;
pub mod player;
pub mod wall;

pub use collectible::Collectible;
pub use enemy::Enemy;
pub use player::{Player, PlayerBuilder, PlayerView};
pub use wall::Wall;
