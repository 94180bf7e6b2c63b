//! The declaration of a ready hand.

use vstd::prelude::*;
use crate::game::context::{ContextView, GameContext};
use crate::hand::analysis::ShantenCalculator;
use crate::hand::representation::{Hand, HandView};

verus! {

/// The fewest tiles that the wall must hold for a declaration.
pub const RIICHI_WALL_MINIMUM: usize = 4;

/// The points that a declaration costs.
pub const RIICHI_STAKE: i32 = 1000;

/// The player may declare ready: no meld is declared, the hand is one
/// tile from completion, the wall holds four tiles or more, the player
/// has the stake, and has not declared before.
pub open spec fn may_declare(view: HandView, context: ContextView) -> bool {
    &&& view.melds.len() == 0
    &&& view.distance() == 0
    &&& context.wall_remaining >= 4
    &&& context.score >= 1000
    &&& !context.is_riichi
}

/// Whether the hand is one tile from completion.
pub fn is_tenpai(hand: &Hand) -> (waiting: bool)
    requires
        hand.wf(),
    ensures
        waiting == (hand@.distance() == 0),
{
    ShantenCalculator::calculate(hand) == 0
}

/// Whether the player may declare ready.
pub fn check_riichi_conditions(hand: &Hand, context: &GameContext) -> (allowed: bool)
    requires
        hand.wf(),
    ensures
        allowed == may_declare(hand@, context@),
{
    if hand.get_melds().len() != 0 {
        return false;
    }
    if !is_tenpai(hand) {
        return false;
    }
    if context.wall_remaining < RIICHI_WALL_MINIMUM {
        return false;
    }
    if context.score < RIICHI_STAKE {
        return false;
    }
    if context.is_riichi {
        return false;
    }
    true
}

} // verus!
