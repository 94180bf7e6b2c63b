//! The competition rules: a win needs eight points from its categories,
//! and points are added up.

pub mod flower;
pub mod rule_set;
pub mod scoring;
pub mod win_check;

pub use rule_set::McrRuleSet;
pub use scoring::{mcr_outcome, score_hand};
