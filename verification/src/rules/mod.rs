//! Winning shapes and scoring under the rule variants.

pub mod claims;
pub mod common;
pub mod facts;
pub mod mcr;
pub mod riichi;
pub mod ruleset;
pub mod scoring;
pub mod shanghai;

pub use ruleset::{score, RuleSet, RuleVariant};
pub use scoring::{ScoreResult, Transfer, Yaku};
