//! The interface of a rule variant, the closed set of variants, and the
//! single entry point that scores a hand under one of them.

use vstd::prelude::*;
use crate::errors::{MajiangError, MajiangResult};
use crate::game::context::{ContextView, GameContext};
use crate::hand::representation::{Hand, HandView};
use crate::rules::mcr::mcr_outcome;
use crate::rules::riichi::riichi_outcome;
use crate::rules::scoring::{ScoreResult, ScoreView};
use crate::rules::shanghai::shanghai_outcome;
use crate::tile::Tile;

verus! {

/// What a rule variant decides. The specification functions say what a
/// variant holds; the methods compute it.
pub trait RuleSet {
    /// The hand wins under the variant, its threshold included.
    spec fn wins(&self, view: HandView, context: ContextView) -> bool;

    /// The score of the hand under the variant; nothing if it does not
    /// win.
    spec fn scores(&self, view: HandView, context: ContextView) -> Option<ScoreView>;

    /// The player may declare ready under the variant.
    spec fn ready(&self, view: HandView, context: ContextView) -> bool;

    /// The variant lets the player claim a discard, or, if
    /// `from_discard` is false, make a quad of tiles of the hand.
    spec fn lets_claim(&self, context: ContextView, from_discard: bool) -> bool;

    /// The name of the variant.
    fn name(&self) -> &'static str;

    /// Whether the hand wins, the threshold of the variant included.
    fn can_win(&self, hand: &Hand, context: &GameContext, is_tsumo: bool) -> (wins: bool)
        requires
            hand.wf(),
        ensures
            wins == self.wins(hand@, context@.with_tsumo(is_tsumo)),
    ;

    /// The score of the hand completed with the winning tile; nothing if
    /// the hand does not hold the tile or does not win.
    fn calculate_score(
        &self,
        hand: &Hand,
        context: &GameContext,
        win_tile: Tile,
        is_tsumo: bool,
    ) -> (scored: Option<ScoreResult>)
        requires
            hand.wf(),
        ensures
            match scored {
                Some(result) => hand@.holds(win_tile) && self.scores(
                    hand@,
                    context@.with_tsumo(is_tsumo),
                ) == Some(result@),
                None => !hand@.holds(win_tile) || self.scores(hand@, context@.with_tsumo(is_tsumo))
                    is None,
            },
    ;

    /// Whether the player may declare ready.
    fn can_riichi(&self, hand: &Hand, context: &GameContext) -> (allowed: bool)
        requires
            hand.wf(),
        ensures
            allowed == self.ready(hand@, context@),
    ;

    /// The runs that the hand can claim the discarded tile for.
    fn can_chi(&self, hand: &Hand, discarded_tile: Tile, context: &GameContext) -> (runs: Vec<
        (Tile, Tile, Tile),
    >)
        requires
            hand.wf(),
        ensures
            runs@ == if self.lets_claim(context@, true) {
                hand@.run_claims(discarded_tile)
            } else {
                Seq::<(Tile, Tile, Tile)>::empty()
            },
    ;

    /// Whether the hand can claim the discarded tile for a triple.
    fn can_pon(&self, hand: &Hand, discarded_tile: Tile, context: &GameContext) -> (can: bool)
        requires
            hand.wf(),
        ensures
            can == (self.lets_claim(context@, true) && hand@.can_claim_triple(discarded_tile)),
    ;

    /// Whether the hand can make a quad with the tile.
    fn can_kan(&self, hand: &Hand, tile: Tile, from_discard: bool, context: &GameContext) -> (can:
        bool)
        requires
            hand.wf(),
        ensures
            can == (self.lets_claim(context@, from_discard) && hand@.can_claim_quad(
                tile,
                from_discard,
            )),
    ;
}

/// The rule variants.
#[derive(Debug, Clone, Copy, PartialEq, Eq, Structural)]
pub enum RuleVariant {
    /// The Japanese variant.
    Riichi,
    /// The Shanghai variant.
    Shanghai,
    /// The competition rules.
    Mcr,
}

impl HandView {
    /// The size of the hand for a completion check: the concealed tiles,
    /// the drawn tile, and three for each meld.
    pub open spec fn size(self) -> nat {
        self.concealed() + 3 * self.melds.len() + if self.drawn is Some {
            1nat
        } else {
            0nat
        }
    }
}

/// The score of a hand under a variant, for the way of winning that the
/// context gives: nothing if the hand does not win under the variant.
pub open spec fn outcome(view: HandView, context: ContextView, variant: RuleVariant) -> Option<
    ScoreView,
> {
    match variant {
        RuleVariant::Riichi => riichi_outcome(view, context),
        RuleVariant::Shanghai => shanghai_outcome(view, context),
        RuleVariant::Mcr => mcr_outcome(view, context),
    }
}

/// Scores a hand under a variant, for the way of winning that the
/// context gives. A hand that is not of fourteen tiles, each meld
/// counted as three, is refused as malformed. A hand that does not win
/// under the variant has no score, which is no error.
pub fn score(hand: &Hand, context: &GameContext, variant: RuleVariant) -> (scored: MajiangResult<
    Option<ScoreResult>,
>)
    requires
        hand.wf(),
    ensures
        hand@.size() != 14 ==> scored matches Err(MajiangError::InvalidWinningHand(_)),
        hand@.size() == 14 ==> match scored {
            Ok(Some(result)) => outcome(hand@, context@, variant) == Some(result@),
            Ok(None) => outcome(hand@, context@, variant) is None,
            Err(_) => false,
        },
{
    let melds: usize = hand.get_melds().len();
    let drawn: usize = if hand.get_drawn_tile().is_some() {
        1
    } else {
        0
    };
    let concealed: usize = hand.concealed_count();
    if concealed != 14 - 3 * melds - drawn || 3 * melds + drawn > 14 {
        return Err(MajiangError::InvalidWinningHand(String::from_str("手牌必须是十四张")));
    }
    let scored = match variant {
        RuleVariant::Riichi => crate::rules::riichi::score_hand(hand, context, context.is_tsumo),
        RuleVariant::Shanghai => crate::rules::shanghai::score_hand(
            hand,
            context,
            context.is_tsumo,
        ),
        RuleVariant::Mcr => crate::rules::mcr::score_hand(hand, context, context.is_tsumo),
    };
    Ok(scored)
}

} // verus!
