//! Evaluation core for a four-player tile game: tiles, melds, hands, distance
//! to completion, completed-shape checks, scoring under several rule
//! variants and discard efficiency.

pub mod action;
pub mod errors;
pub mod game;
pub mod hand;
pub mod meld;
pub mod player;
pub mod rules;
pub mod text;
pub mod tile;
pub mod wall;
