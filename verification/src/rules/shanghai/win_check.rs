//! Winning under the Shanghai variant.

use vstd::prelude::*;
use crate::game::context::GameContext;
use crate::hand::representation::Hand;
use crate::rules::common::win_patterns::{is_standard_win_shape, standard_win};

verus! {

/// Whether the hand wins under the Shanghai variant: it is four groups
/// and a pair.
pub fn can_win_shanghai(hand: &Hand, context: &GameContext) -> (wins: bool)
    requires
        hand.wf(),
    ensures
        wins == standard_win(hand@.shape(), hand@.melds.len()),
{
    is_standard_win_shape(hand)
}

} // verus!
