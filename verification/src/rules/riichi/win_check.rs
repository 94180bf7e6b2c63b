//! The shapes with which a hand wins in the Japanese variant.

use vstd::prelude::*;
use crate::hand::representation::Hand;
use crate::rules::common::win_patterns::{
    is_complete, pairs_win, pairs_win_of, singles_win, singles_win_of, PairsPolicy,
};

verus! {

/// Whether the hand is complete: four groups and a pair, seven pairs of
/// seven tiles, or the thirteen singles.
pub fn can_form_winning_hand(hand: &Hand) -> (complete: bool)
    requires
        hand.wf(),
    ensures
        complete == hand@.is_complete(PairsPolicy::Distinct),
{
    is_complete(hand, PairsPolicy::Distinct)
}

/// Whether the hand is seven pairs of seven tiles, with no meld.
pub fn is_seven_pairs(hand: &Hand) -> (complete: bool)
    requires
        hand.wf(),
    ensures
        complete == pairs_win(hand@.shape(), hand@.melds.len(), PairsPolicy::Distinct),
{
    let counts = hand.shape_counts();
    pairs_win_of(&counts, hand.get_melds().len(), PairsPolicy::Distinct)
}

/// Whether the hand is the thirteen singles with one of them doubled,
/// with no meld.
pub fn is_kokushi_musou(hand: &Hand) -> (complete: bool)
    requires
        hand.wf(),
    ensures
        complete == singles_win(hand@.shape(), hand@.melds.len()),
{
    let counts = hand.shape_counts();
    singles_win_of(&counts, hand.get_melds().len())
}

} // verus!
