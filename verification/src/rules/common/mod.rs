//! What every rule variant shares: the shapes of a complete hand.

pub mod win_patterns;
