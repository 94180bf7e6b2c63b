//! The Shanghai variant: every complete hand wins, categories double the
//! payment up to a limit, and bonus tiles add to it.

pub mod flower;
pub mod rule_set;
pub mod scoring;
pub mod win_check;

pub use rule_set::ShanghaiRuleSet;
pub use scoring::{score_hand, shanghai_outcome};
