//! The categories and the points of the Shanghai variant.

use vstd::prelude::*;
use crate::game::context::{ContextView, GameContext};
use crate::hand::representation::{Hand, HandView};
use crate::rules::common::win_patterns::PairsPolicy;
use crate::rules::facts::{facts_of, gather_facts, HandFacts};
use crate::rules::scoring::{
    add_entry, also, lemma_yaku_views, new_list, no_categories, weights_total, yaku_views,
    ScoreResult, ScoreView, Transfer, Yaku,
};
use crate::tile::Tile;

verus! {

/// The categories that double the payment, with their weights.
pub open spec fn shanghai_doubles(facts: HandFacts) -> Seq<(Seq<char>, nat)> {
    let list = no_categories();
    let list = also(list, facts.all_triplets, "碰碰和"@, 2);
    let list = also(list, facts.full_flush, "清一色"@, 4);
    let list = also(list, facts.half_flush, "混一色"@, 2);
    let list = also(list, facts.menzen, "门清"@, 1);
    also(list, facts.is_tsumo, "自摸"@, 1)
}

/// The categories that count towards the payment: those of
/// `shanghai_doubles`, or the plain win if there is none of them.
pub open spec fn shanghai_fan(facts: HandFacts) -> Seq<(Seq<char>, nat)> {
    also(shanghai_doubles(facts), shanghai_doubles(facts).len() == 0, "底和"@, 1)
}

/// All the categories of a hand: those of `shanghai_fan` and the bonus
/// tiles.
pub open spec fn shanghai_categories(facts: HandFacts) -> Seq<(Seq<char>, nat)> {
    also(shanghai_fan(facts), facts.flowers > 0, "花牌"@, facts.flowers as nat)
}

/// What one payer pays for a total weight, which counts up to 8.
pub open spec fn payment_unit(total_fan: nat) -> int {
    if total_fan == 0 {
        0
    } else if total_fan == 1 {
        1
    } else if total_fan == 2 {
        2
    } else if total_fan == 3 {
        4
    } else if total_fan == 4 {
        6
    } else if total_fan == 5 {
        8
    } else if total_fan == 6 {
        10
    } else if total_fan == 7 {
        12
    } else {
        15
    }
}

/// What the winner receives for a total weight: the unit from the
/// discarder, or from each of three on a draw.
pub open spec fn final_shanghai_points(total_fan: nat, is_tsumo: bool) -> int {
    if is_tsumo {
        payment_unit(total_fan) * 3
    } else {
        payment_unit(total_fan)
    }
}

/// Who pays what: each payer pays the unit and one for each bonus tile.
pub open spec fn shanghai_transfer(total_fan: nat, flowers: nat, is_tsumo: bool) -> Transfer {
    Transfer {
        total: if is_tsumo {
            (3 * (payment_unit(total_fan) + flowers)) as i32
        } else {
            (payment_unit(total_fan) + flowers) as i32
        },
        from_discarder: if is_tsumo {
            0
        } else {
            (payment_unit(total_fan) + flowers) as i32
        },
        from_dealer: 0,
        from_each_other: if is_tsumo {
            (payment_unit(total_fan) + flowers) as i32
        } else {
            0
        },
    }
}

/// The score of a hand from its facts: nothing unless the hand is four
/// groups and a pair; else its categories, the weight that counts, and
/// who pays.
pub open spec fn shanghai_result(facts: HandFacts) -> Option<ScoreView> {
    if !facts.standard {
        None
    } else {
        Some(
            ScoreView {
                yaku: shanghai_categories(facts),
                fu: 0,
                score: shanghai_transfer(
                    weights_total(shanghai_fan(facts)),
                    facts.flowers as nat,
                    facts.is_tsumo,
                ).total as int,
                han: weights_total(shanghai_fan(facts)),
                payment: shanghai_transfer(
                    weights_total(shanghai_fan(facts)),
                    facts.flowers as nat,
                    facts.is_tsumo,
                ),
            },
        )
    }
}

/// The score of a hand under the Shanghai variant.
pub open spec fn shanghai_outcome(view: HandView, context: ContextView) -> Option<ScoreView> {
    shanghai_result(facts_of(view, context, PairsPolicy::Distinct))
}

/// What one payer pays for a total weight.
fn unit_of(total_fan: u32) -> (unit: i32)
    ensures
        unit == payment_unit(total_fan as nat),
        0 <= unit <= 15,
{
    let capped: u32 = if total_fan < 8 {
        total_fan
    } else {
        8
    };
    if capped == 0 {
        0
    } else if capped == 1 {
        1
    } else if capped == 2 {
        2
    } else if capped == 3 {
        4
    } else if capped == 4 {
        6
    } else if capped == 5 {
        8
    } else if capped == 6 {
        10
    } else if capped == 7 {
        12
    } else {
        15
    }
}

/// What the winner receives for a total weight.
pub fn calculate_final_shanghai_points(total_fan: u32, is_tsumo: bool) -> (points: i32)
    ensures
        points == final_shanghai_points(total_fan as nat, is_tsumo),
{
    let base_pay: i32 = unit_of(total_fan);
    if is_tsumo {
        base_pay * 3
    } else {
        base_pay
    }
}

/// The categories that count towards the payment, with their total.
fn fan_of(facts: &HandFacts) -> (made: (Vec<Yaku>, u32))
    ensures
        yaku_views(made.0@) == shanghai_fan(*facts),
        made.1 == weights_total(yaku_views(made.0@)),
        made.1 <= 11,
{
    let mut list: Vec<Yaku> = new_list();
    let mut total: u32 = 0;
    total = add_entry(&mut list, total, facts.all_triplets, "碰碰和", 2);
    total = add_entry(&mut list, total, facts.full_flush, "清一色", 4);
    total = add_entry(&mut list, total, facts.half_flush, "混一色", 2);
    total = add_entry(&mut list, total, facts.menzen, "门清", 1);
    total = add_entry(&mut list, total, facts.is_tsumo, "自摸", 1);
    proof {
        lemma_yaku_views(list@);
    }
    let plain: bool = list.len() == 0;
    total = add_entry(&mut list, total, plain, "底和", 1);
    (list, total)
}

/// The score of a hand from its facts.
pub fn score_facts(facts: &HandFacts) -> (scored: Option<ScoreResult>)
    ensures
        match scored {
            Some(result) => shanghai_result(*facts) == Some(result@),
            None => shanghai_result(*facts) is None,
        },
{
    if !facts.standard {
        return None;
    }
    let (mut list, fan) = fan_of(facts);
    let _ = add_entry(&mut list, fan, facts.flowers > 0, "花牌", facts.flowers as u32);
    let each: i32 = unit_of(fan) + facts.flowers as i32;
    let payment = if facts.is_tsumo {
        Transfer { total: 3 * each, from_discarder: 0, from_dealer: 0, from_each_other: each }
    } else {
        Transfer { total: each, from_discarder: each, from_dealer: 0, from_each_other: 0 }
    };
    Some(ScoreResult { yaku: list, fu: 0, score: payment.total, han: fan, payment })
}

/// The score of a hand under the Shanghai variant, for the given way of
/// winning.
pub fn score_hand(hand: &Hand, context: &GameContext, is_tsumo: bool) -> (scored: Option<
    ScoreResult,
>)
    requires
        hand.wf(),
    ensures
        match scored {
            Some(result) => shanghai_outcome(hand@, context@.with_tsumo(is_tsumo)) == Some(
                result@,
            ),
            None => shanghai_outcome(hand@, context@.with_tsumo(is_tsumo)) is None,
        },
{
    let facts: HandFacts = gather_facts(hand, context, is_tsumo, PairsPolicy::Distinct);
    score_facts(&facts)
}

/// The score of a hand completed with the winning tile under the
/// Shanghai variant: nothing if the hand does not hold the tile or does
/// not win.
pub fn calculate_shanghai_score(
    hand: &Hand,
    context: &GameContext,
    win_tile: Tile,
    is_tsumo: bool,
) -> (scored: Option<ScoreResult>)
    requires
        hand.wf(),
    ensures
        match scored {
            Some(result) => hand@.holds(win_tile) && shanghai_outcome(
                hand@,
                context@.with_tsumo(is_tsumo),
            ) == Some(result@),
            None => !hand@.holds(win_tile) || shanghai_outcome(
                hand@,
                context@.with_tsumo(is_tsumo),
            ) is None,
        },
{
    if !hand.holds_tile(&win_tile) {
        return None;
    }
    score_hand(hand, context, is_tsumo)
}

} // verus!
