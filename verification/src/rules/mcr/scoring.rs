//! The categories and the points of the competition rules.

use vstd::prelude::*;
use crate::game::context::{ContextView, GameContext};
use crate::hand::representation::{Hand, HandView};
use crate::rules::common::win_patterns::PairsPolicy;
use crate::rules::facts::{facts_of, gather_facts, HandFacts};
use crate::rules::scoring::{
    add_entry, also, new_list, no_categories, weights_total, yaku_views, ScoreResult, ScoreView,
    Transfer, Yaku,
};
use crate::tile::Tile;

verus! {

/// The points that a hand needs from its categories to win.
pub const MCR_THRESHOLD: u32 = 8;

/// The points that every payer adds to the points of the hand.
pub const MCR_BASE: i32 = 8;

/// The categories that the tiles of a hand decide, with their points.
pub open spec fn mcr_shape_points(facts: HandFacts) -> Seq<(Seq<char>, nat)> {
    let list = no_categories();
    let list = also(list, facts.seven_pairs, "七对"@, 24);
    let list = also(list, facts.full_flush, "清一色"@, 24);
    let list = also(list, facts.all_triplets, "碰碰和"@, 6);
    let list = also(list, facts.half_flush, "混一色"@, 6);
    let list = also(list, facts.all_simples, "断幺"@, 2);
    also(list, facts.dragon_triplets > 0, "箭刻"@, 2 * (facts.dragon_triplets as nat))
}

/// The categories of a hand apart from its bonus tiles, with their
/// points. The thirteen singles stand alone. A category that another
/// includes is not counted beside it: a concealed hand won by draw
/// counts neither the draw nor the concealment again.
pub open spec fn mcr_points(facts: HandFacts) -> Seq<(Seq<char>, nat)> {
    if facts.thirteen_orphans {
        also(no_categories(), true, "十三幺"@, 88)
    } else {
        let list = mcr_shape_points(facts);
        let list = also(list, facts.round_wind_triplet, "圈风刻"@, 2);
        let list = also(list, facts.seat_wind_triplet, "门风刻"@, 2);
        let list = also(list, facts.is_tsumo && facts.menzen, "不求人"@, 4);
        let list = also(list, !facts.is_tsumo && facts.menzen, "门前清"@, 2);
        also(list, facts.is_tsumo && !facts.menzen, "自摸"@, 1)
    }
}

/// All the categories of a hand: those of `mcr_points` and the bonus
/// tiles, a point each.
pub open spec fn mcr_categories(facts: HandFacts) -> Seq<(Seq<char>, nat)> {
    also(mcr_points(facts), facts.flowers > 0, "花牌"@, facts.flowers as nat)
}

/// Who pays what: on a draw each of three pays the points and the base;
/// on a discard the discarder pays the points and the base, and each of
/// the other two the base.
pub open spec fn mcr_transfer(points: int, is_tsumo: bool) -> Transfer {
    Transfer {
        total: if is_tsumo {
            (3 * (points + 8)) as i32
        } else {
            (points + 24) as i32
        },
        from_discarder: if is_tsumo {
            0
        } else {
            (points + 8) as i32
        },
        from_dealer: 0,
        from_each_other: if is_tsumo {
            (points + 8) as i32
        } else {
            8
        },
    }
}

/// The score of a hand from its facts: nothing unless the hand is
/// complete and its categories, the bonus tiles apart, make eight
/// points; else all its categories, their points added up, and who pays.
pub open spec fn mcr_result(facts: HandFacts) -> Option<ScoreView> {
    if !(facts.standard || facts.seven_pairs || facts.thirteen_orphans) || weights_total(
        mcr_points(facts),
    ) < 8 {
        None
    } else {
        Some(
            ScoreView {
                yaku: mcr_categories(facts),
                fu: 0,
                score: weights_total(mcr_categories(facts)) as int,
                han: weights_total(mcr_points(facts)),
                payment: mcr_transfer(weights_total(mcr_categories(facts)) as int, facts.is_tsumo),
            },
        )
    }
}

/// The score of a hand under the competition rules.
pub open spec fn mcr_outcome(view: HandView, context: ContextView) -> Option<ScoreView> {
    mcr_result(facts_of(view, context, PairsPolicy::AllowQuads))
}

/// The categories that the tiles of a hand decide, with the total of
/// their points.
fn shape_points_of(facts: &HandFacts) -> (made: (Vec<Yaku>, u32))
    ensures
        yaku_views(made.0@) == mcr_shape_points(*facts),
        made.1 == weights_total(yaku_views(made.0@)),
        made.1 <= 572,
{
    let mut list: Vec<Yaku> = new_list();
    let mut total: u32 = 0;
    total = add_entry(&mut list, total, facts.seven_pairs, "七对", 24);
    total = add_entry(&mut list, total, facts.full_flush, "清一色", 24);
    total = add_entry(&mut list, total, facts.all_triplets, "碰碰和", 6);
    total = add_entry(&mut list, total, facts.half_flush, "混一色", 6);
    total = add_entry(&mut list, total, facts.all_simples, "断幺", 2);
    total = add_entry(
        &mut list,
        total,
        facts.dragon_triplets > 0,
        "箭刻",
        2 * (facts.dragon_triplets as u32),
    );
    (list, total)
}

/// The categories of a hand apart from its bonus tiles, with the total
/// of their points.
fn points_of(facts: &HandFacts) -> (made: (Vec<Yaku>, u32))
    ensures
        yaku_views(made.0@) == mcr_points(*facts),
        made.1 == weights_total(yaku_views(made.0@)),
        made.1 <= 600,
{
    if facts.thirteen_orphans {
        let mut list: Vec<Yaku> = new_list();
        let total: u32 = add_entry(&mut list, 0, true, "十三幺", 88);
        return (list, total);
    }
    let (mut list, mut total) = shape_points_of(facts);
    total = add_entry(&mut list, total, facts.round_wind_triplet, "圈风刻", 2);
    total = add_entry(&mut list, total, facts.seat_wind_triplet, "门风刻", 2);
    total = add_entry(&mut list, total, facts.is_tsumo && facts.menzen, "不求人", 4);
    total = add_entry(&mut list, total, !facts.is_tsumo && facts.menzen, "门前清", 2);
    total = add_entry(&mut list, total, facts.is_tsumo && !facts.menzen, "自摸", 1);
    (list, total)
}

/// The score of a hand from its facts.
pub fn score_facts(facts: &HandFacts) -> (scored: Option<ScoreResult>)
    ensures
        match scored {
            Some(result) => mcr_result(*facts) == Some(result@),
            None => mcr_result(*facts) is None,
        },
{
    if !(facts.standard || facts.seven_pairs || facts.thirteen_orphans) {
        return None;
    }
    let (mut list, points) = points_of(facts);
    if points < MCR_THRESHOLD {
        return None;
    }
    let all: u32 = add_entry(&mut list, points, facts.flowers > 0, "花牌", facts.flowers as u32);
    let score: i32 = all as i32;
    let payment = if facts.is_tsumo {
        Transfer {
            total: 3 * (score + MCR_BASE),
            from_discarder: 0,
            from_dealer: 0,
            from_each_other: score + MCR_BASE,
        }
    } else {
        Transfer {
            total: score + 3 * MCR_BASE,
            from_discarder: score + MCR_BASE,
            from_dealer: 0,
            from_each_other: MCR_BASE,
        }
    };
    Some(ScoreResult { yaku: list, fu: 0, score, han: points, payment })
}

/// The score of a hand under the competition rules, for the given way
/// of winning.
pub fn score_hand(hand: &Hand, context: &GameContext, is_tsumo: bool) -> (scored: Option<
    ScoreResult,
>)
    requires
        hand.wf(),
    ensures
        match scored {
            Some(result) => mcr_outcome(hand@, context@.with_tsumo(is_tsumo)) == Some(result@),
            None => mcr_outcome(hand@, context@.with_tsumo(is_tsumo)) is None,
        },
{
    let facts: HandFacts = gather_facts(hand, context, is_tsumo, PairsPolicy::AllowQuads);
    score_facts(&facts)
}

/// The score of a hand completed with the winning tile under the
/// competition rules: nothing if the hand does not hold the tile or
/// does not win.
pub fn calculate_mcr_score(hand: &Hand, context: &GameContext, win_tile: Tile, is_tsumo: bool) -> (scored:
    Option<ScoreResult>)
    requires
        hand.wf(),
    ensures
        match scored {
            Some(result) => hand@.holds(win_tile) && mcr_outcome(
                hand@,
                context@.with_tsumo(is_tsumo),
            ) == Some(result@),
            None => !hand@.holds(win_tile) || mcr_outcome(hand@, context@.with_tsumo(is_tsumo))
                is None,
        },
{
    if !hand.holds_tile(&win_tile) {
        return None;
    }
    score_hand(hand, context, is_tsumo)
}

} // verus!
