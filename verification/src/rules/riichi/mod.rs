//! The Japanese variant: a win needs a scoring category, and points come
//! from a base measure and a multiplier.

pub mod riichi_specific;
pub mod rule_set;
pub mod score;
pub mod win_check;
pub mod yaku;

pub use rule_set::{riichi_outcome, score_hand, RiichiRuleSet};
