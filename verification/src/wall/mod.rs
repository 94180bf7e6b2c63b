//! The wall: the shuffled tiles that players draw from, and the dead
//! wall at its end.

pub mod builder;
pub mod dead_wall;
pub mod wall;

pub use builder::WallConfig;
pub use dead_wall::{DeadWall, DeadWallConfig};
pub use wall::Wall;
