//! The Shanghai variant as a rule set.

use vstd::prelude::*;
use crate::game::context::{ContextView, GameContext};
use crate::hand::representation::{Hand, HandView};
use crate::rules::claims::{quad_claim_of, run_claims_of, triple_claim_of};
use crate::rules::common::win_patterns::standard_win;
use crate::rules::ruleset::RuleSet;
use crate::rules::scoring::{ScoreResult, ScoreView};
use crate::rules::shanghai::scoring::{calculate_shanghai_score, shanghai_outcome};
use crate::rules::shanghai::win_check::can_win_shanghai;
use crate::tile::Tile;

verus! {

/// The Shanghai variant.
#[derive(Debug, Default)]
pub struct ShanghaiRuleSet;

impl RuleSet for ShanghaiRuleSet {
    open spec fn wins(&self, view: HandView, context: ContextView) -> bool {
        standard_win(view.shape(), view.melds.len())
    }

    open spec fn scores(&self, view: HandView, context: ContextView) -> Option<ScoreView> {
        shanghai_outcome(view, context)
    }

    open spec fn ready(&self, view: HandView, context: ContextView) -> bool {
        false
    }

    open spec fn lets_claim(&self, context: ContextView, from_discard: bool) -> bool {
        true
    }

    fn name(&self) -> (name: &'static str)
        ensures
            name@ == "Shanghai Mahjong"@,
    {
        "Shanghai Mahjong"
    }

    fn can_win(&self, hand: &Hand, context: &GameContext, is_tsumo: bool) -> (wins: bool) {
        can_win_shanghai(hand, context)
    }

    fn calculate_score(
        &self,
        hand: &Hand,
        context: &GameContext,
        win_tile: Tile,
        is_tsumo: bool,
    ) -> (scored: Option<ScoreResult>) {
        calculate_shanghai_score(hand, context, win_tile, is_tsumo)
    }

    fn can_riichi(&self, hand: &Hand, context: &GameContext) -> (allowed: bool) {
        false
    }

    fn can_chi(&self, hand: &Hand, discarded_tile: Tile, context: &GameContext) -> (runs: Vec<
        (Tile, Tile, Tile),
    >) {
        run_claims_of(hand, discarded_tile)
    }

    fn can_pon(&self, hand: &Hand, discarded_tile: Tile, context: &GameContext) -> (can: bool) {
        triple_claim_of(hand, discarded_tile)
    }

    fn can_kan(&self, hand: &Hand, tile: Tile, from_discard: bool, context: &GameContext) -> (can:
        bool) {
        quad_claim_of(hand, tile, from_discard)
    }
}

} // verus!
