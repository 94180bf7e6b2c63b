//! What a game hands to the evaluation of a hand, the state of a game,
//! and the turn of a player.

pub mod context;
pub mod flow;
pub mod state;
pub mod turn;
pub mod utils;

pub use context::GameContext;
pub use state::GameState;
