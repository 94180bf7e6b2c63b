//! The hand of one player and what can be computed from it.

pub mod analysis;
pub mod decompose;
pub mod display;
pub mod efficiency;
pub mod parser;
pub mod representation;

pub use representation::{Hand, HandView};
pub use analysis::{analyze_hand, HandAnalysisResult, HandComponent, ShantenCalculator};
pub use efficiency::{calculate_discard_efficiency, find_best_discard, EfficiencyInfo};
pub use parser::parse_hand_string;
