//! Players: their seats, their state and the actions open to them.

pub mod actions;
pub mod agent;
pub mod ai;
pub mod model;

pub use agent::{AiType, PlayerAgent};
pub use model::{Player, WindDirection};
