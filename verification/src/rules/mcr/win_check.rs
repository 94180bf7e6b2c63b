//! Winning under the competition rules.

use vstd::prelude::*;
use crate::game::context::GameContext;
use crate::hand::representation::Hand;
use crate::rules::common::win_patterns::{is_complete, PairsPolicy};
use crate::rules::mcr::scoring::{mcr_outcome, score_hand};

verus! {

/// Whether the hand is complete under the competition rules, where four
/// copies of a tile may be two of seven pairs.
pub fn is_mcr_winning_shape(hand: &Hand) -> (complete: bool)
    requires
        hand.wf(),
    ensures
        complete == hand@.is_complete(PairsPolicy::AllowQuads),
{
    is_complete(hand, PairsPolicy::AllowQuads)
}

/// Whether the hand wins under the competition rules: it is complete and
/// its categories make eight points.
pub fn can_win_mcr(hand: &Hand, context: &GameContext, is_tsumo: bool) -> (wins: bool)
    requires
        hand.wf(),
    ensures
        wins == (mcr_outcome(hand@, context@.with_tsumo(is_tsumo)) is Some),
{
    score_hand(hand, context, is_tsumo).is_some()
}

} // verus!
