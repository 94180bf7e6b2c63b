//! The Japanese variant as a rule set.

use vstd::prelude::*;
use crate::game::context::{ContextView, GameContext};
use crate::hand::representation::{Hand, HandView};
use crate::rules::claims::{quad_claim_of, run_claims_of, triple_claim_of};
use crate::rules::common::win_patterns::PairsPolicy;
use crate::rules::facts::{facts_of, gather_facts, HandFacts};
use crate::rules::riichi::riichi_specific::{check_riichi_conditions, may_declare};
use crate::rules::riichi::score::{riichi_result, score_with};
use crate::rules::riichi::yaku::{riichi_categories, riichi_yaku, yaku_of};
use crate::rules::ruleset::RuleSet;
use crate::rules::scoring::{lemma_also, lemma_yaku_views, ScoreResult, ScoreView};
use crate::tile::Tile;

verus! {

/// The Japanese variant.
#[derive(Debug, Default)]
pub struct RiichiRuleSet;

/// The hand wins under the variant: it is complete and matches a
/// category that lets it win.
pub open spec fn riichi_wins(view: HandView, context: ContextView) -> bool {
    view.is_complete(PairsPolicy::Distinct) && riichi_yaku(
        facts_of(view, context, PairsPolicy::Distinct),
    ).len() > 0
}

/// The score of a hand under the variant: nothing if the hand does not
/// win, else the score of its categories.
pub open spec fn riichi_outcome(view: HandView, context: ContextView) -> Option<ScoreView> {
    if riichi_wins(view, context) {
        riichi_result(
            facts_of(view, context, PairsPolicy::Distinct),
            riichi_categories(facts_of(view, context, PairsPolicy::Distinct)),
        )
    } else {
        None
    }
}

/// The score of a hand under the variant, for the given way of winning.
pub fn score_hand(hand: &Hand, context: &GameContext, is_tsumo: bool) -> (scored: Option<
    ScoreResult,
>)
    requires
        hand.wf(),
    ensures
        match scored {
            Some(result) => riichi_outcome(hand@, context@.with_tsumo(is_tsumo)) == Some(result@),
            None => riichi_outcome(hand@, context@.with_tsumo(is_tsumo)) is None,
        },
{
    let facts: HandFacts = gather_facts(hand, context, is_tsumo, PairsPolicy::Distinct);
    if !(facts.standard || facts.seven_pairs || facts.thirteen_orphans) {
        return None;
    }
    let list = yaku_of(&facts);
    proof {
        lemma_yaku_views(list@);
        lemma_also(riichi_yaku(facts), facts.dora > 0, "宝牌"@, facts.dora as nat);
    }
    if list.len() == 0 {
        return None;
    }
    score_with(&facts, list)
}

impl RuleSet for RiichiRuleSet {
    open spec fn wins(&self, view: HandView, context: ContextView) -> bool {
        riichi_wins(view, context)
    }

    open spec fn scores(&self, view: HandView, context: ContextView) -> Option<ScoreView> {
        riichi_outcome(view, context)
    }

    open spec fn ready(&self, view: HandView, context: ContextView) -> bool {
        may_declare(view, context)
    }

    open spec fn lets_claim(&self, context: ContextView, from_discard: bool) -> bool {
        !(context.is_riichi && from_discard)
    }

    fn name(&self) -> (name: &'static str)
        ensures
            name@ == "Riichi Mahjong"@,
    {
        "Riichi Mahjong"
    }

    fn can_win(&self, hand: &Hand, context: &GameContext, is_tsumo: bool) -> (wins: bool) {
        let facts: HandFacts = gather_facts(hand, context, is_tsumo, PairsPolicy::Distinct);
        if !(facts.standard || facts.seven_pairs || facts.thirteen_orphans) {
            return false;
        }
        let list = yaku_of(&facts);
        proof {
            lemma_yaku_views(list@);
            lemma_also(riichi_yaku(facts), facts.dora > 0, "宝牌"@, facts.dora as nat);
        }
        list.len() > 0
    }

    fn calculate_score(
        &self,
        hand: &Hand,
        context: &GameContext,
        win_tile: Tile,
        is_tsumo: bool,
    ) -> (scored: Option<ScoreResult>) {
        if !hand.holds_tile(&win_tile) {
            return None;
        }
        score_hand(hand, context, is_tsumo)
    }

    fn can_riichi(&self, hand: &Hand, context: &GameContext) -> (allowed: bool) {
        check_riichi_conditions(hand, context)
    }

    fn can_chi(&self, hand: &Hand, discarded_tile: Tile, context: &GameContext) -> (runs: Vec<
        (Tile, Tile, Tile),
    >) {
        if context.is_riichi {
            return Vec::new();
        }
        run_claims_of(hand, discarded_tile)
    }

    fn can_pon(&self, hand: &Hand, discarded_tile: Tile, context: &GameContext) -> (can: bool) {
        !context.is_riichi && triple_claim_of(hand, discarded_tile)
    }

    fn can_kan(&self, hand: &Hand, tile: Tile, from_discard: bool, context: &GameContext) -> (can:
        bool) {
        !(context.is_riichi && from_discard) && quad_claim_of(hand, tile, from_discard)
    }
}

} // verus!
