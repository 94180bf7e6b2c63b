//! The actions of players.

pub mod serialization;
pub mod types;
pub mod validation;

pub use types::{Action, ActionEvent, ActionResult, KanType};
