//! Points of the Japanese variant: a base measure and a multiplier make
//! the base points, and the seat and the way of winning say who pays.

use vstd::prelude::*;
use crate::game::context::GameContext;
use crate::hand::representation::Hand;
use crate::rules::common::win_patterns::PairsPolicy;
use crate::rules::facts::{facts_of, gather_facts, HandFacts};
use crate::rules::scoring::{
    lemma_yaku_views, total_weight, weights_total, yaku_views, ScoreResult, ScoreView, Transfer,
    Yaku,
};
use crate::tile::Tile;

verus! {

/// The largest total weight whose limit points fit a 32-bit number.
pub const MAX_HAN: u32 = 581_619;

/// The largest base points, in either direction, whose payments fit a
/// 32-bit number.
pub const MAX_BASE_POINTS: i32 = 357_913_891;

/// An amount rounded up to a whole number of hundreds. An amount below
/// -99, which no hand gives, is rounded towards zero after 99 is added to
/// it.
pub open spec fn hundreds(amount: int) -> int {
    if amount + 99 >= 0 {
        (amount + 99) / 100 * 100
    } else {
        -((-(amount + 99)) / 100 * 100)
    }
}

/// The base measure of a hand: 25 for seven pairs; else 20, with 2 more
/// for a win by draw or 10 more for a concealed win on a discard,
/// rounded up to a whole number of tens.
pub open spec fn fu_of(facts: HandFacts) -> nat {
    if facts.seven_pairs {
        25
    } else if facts.is_tsumo {
        30
    } else if facts.menzen {
        30
    } else {
        20
    }
}

/// Two to the power of the multiplier and two more, for multipliers
/// below 6.
pub open spec fn doubling(han: nat) -> nat {
    if han == 0 {
        4
    } else if han == 1 {
        8
    } else if han == 2 {
        16
    } else if han == 3 {
        32
    } else if han == 4 {
        64
    } else {
        128
    }
}

/// The base points of a multiplier and a base measure: the measure
/// doubled as the multiplier says, at most 2000; fixed amounts from a
/// multiplier of 6 on.
pub open spec fn base_points(han: nat, fu: nat) -> int {
    if han >= 13 {
        8000
    } else if han >= 11 {
        6000
    } else if han >= 8 {
        4000
    } else if han >= 6 {
        3000
    } else if fu * doubling(han) > 2000 {
        2000
    } else {
        (fu * doubling(han)) as int
    }
}

/// What the winner receives for base points. On a draw the dealer
/// receives twice the base points from each of three; another player
/// receives twice from the dealer and once from each of two. On a
/// discard the dealer receives six times, another player four times.
/// Each payment is rounded up to hundreds.
pub open spec fn final_score(base: int, is_dealer: bool, is_tsumo: bool) -> int {
    if is_tsumo {
        if is_dealer {
            hundreds(base * 2) * 3
        } else {
            hundreds(base * 2) + hundreds(base) * 2
        }
    } else if is_dealer {
        hundreds(base * 6)
    } else {
        hundreds(base * 4)
    }
}

/// Who pays what for base points.
pub open spec fn transfer_of(base: int, is_dealer: bool, is_tsumo: bool) -> Transfer {
    Transfer {
        total: final_score(base, is_dealer, is_tsumo) as i32,
        from_discarder: if is_tsumo {
            0
        } else {
            final_score(base, is_dealer, is_tsumo) as i32
        },
        from_dealer: if is_tsumo && !is_dealer {
            hundreds(base * 2) as i32
        } else {
            0
        },
        from_each_other: if !is_tsumo {
            0
        } else if is_dealer {
            hundreds(base * 2) as i32
        } else {
            hundreds(base) as i32
        },
    }
}

/// The points of a limit hand: 48000 for the dealer, 32000 for another
/// player, for each 13 of the multiplier.
pub open spec fn yakuman_score(is_dealer: bool, han: nat) -> int {
    (if is_dealer {
        48000int
    } else {
        32000int
    }) * (han / 13)
}

/// Who pays what for a limit hand: on a draw the dealer receives a
/// third from each of three, another player half from the dealer and a
/// quarter from each of two; on a discard the discarder pays all.
pub open spec fn yakuman_transfer(total: int, is_dealer: bool, is_tsumo: bool) -> Transfer {
    Transfer {
        total: total as i32,
        from_discarder: if is_tsumo {
            0
        } else {
            total as i32
        },
        from_dealer: if is_tsumo && !is_dealer {
            (total / 2) as i32
        } else {
            0
        },
        from_each_other: if !is_tsumo {
            0
        } else if is_dealer {
            (total / 3) as i32
        } else {
            (total / 4) as i32
        },
    }
}

/// Some category of the list weighs 13 or more.
pub open spec fn has_limit(list: Seq<(Seq<char>, nat)>) -> bool {
    exists|i: int| 0 <= i < list.len() && (#[trigger] list[i]).1 >= 13
}

/// The score of a hand with the given categories: nothing if they weigh
/// nothing; the points of a limit hand if one of them is a limit; else
/// the points of the base measure and the multiplier.
pub open spec fn riichi_result(facts: HandFacts, list: Seq<(Seq<char>, nat)>) -> Option<ScoreView> {
    let han = weights_total(list);
    if han == 0 {
        None
    } else if has_limit(list) {
        Some(
            ScoreView {
                yaku: list,
                fu: 0,
                score: yakuman_score(facts.is_dealer, han),
                han,
                payment: yakuman_transfer(
                    yakuman_score(facts.is_dealer, han),
                    facts.is_dealer,
                    facts.is_tsumo,
                ),
            },
        )
    } else {
        Some(
            ScoreView {
                yaku: list,
                fu: fu_of(facts),
                score: final_score(
                    base_points(han, fu_of(facts)),
                    facts.is_dealer,
                    facts.is_tsumo,
                ),
                han,
                payment: transfer_of(
                    base_points(han, fu_of(facts)),
                    facts.is_dealer,
                    facts.is_tsumo,
                ),
            },
        )
    }
}

/// The score of a hand with the given categories, from its facts.
pub fn score_with(facts: &HandFacts, yaku_list: Vec<Yaku>) -> (scored: Option<ScoreResult>)
    requires
        weights_total(yaku_views(yaku_list@)) <= MAX_HAN,
    ensures
        match scored {
            Some(result) => riichi_result(*facts, yaku_views(yaku_list@)) == Some(result@),
            None => riichi_result(*facts, yaku_views(yaku_list@)) is None,
        },
{
    let han: u32 = total_weight(&yaku_list);
    if han == 0 {
        return None;
    }
    if is_yakuman(yaku_list.as_slice()) {
        let score: i32 = calculate_yakuman_score(facts.is_dealer, facts.is_tsumo, han);
        let payment = if facts.is_tsumo {
            if facts.is_dealer {
                Transfer { total: score, from_discarder: 0, from_dealer: 0, from_each_other: score / 3 }
            } else {
                Transfer {
                    total: score,
                    from_discarder: 0,
                    from_dealer: score / 2,
                    from_each_other: score / 4,
                }
            }
        } else {
            Transfer { total: score, from_discarder: score, from_dealer: 0, from_each_other: 0 }
        };
        return Some(ScoreResult { yaku: yaku_list, fu: 0, score, han, payment });
    }
    let fu: u32 = calculate_fu(facts);
    let base: i32 = calculate_base_points(han, fu);
    let score: i32 = calculate_final_score(base, facts.is_dealer, facts.is_tsumo);
    let payment: Transfer = settle(base, facts.is_dealer, facts.is_tsumo);
    Some(ScoreResult { yaku: yaku_list, fu, score, han, payment })
}

/// The score of a hand in a context with the given categories, for the
/// given way of winning.
pub fn calculate_riichi_score(
    hand: &Hand,
    context: &GameContext,
    win_tile: Tile,
    is_tsumo: bool,
    yaku_list: Vec<Yaku>,
) -> (scored: Option<ScoreResult>)
    requires
        hand.wf(),
        weights_total(yaku_views(yaku_list@)) <= MAX_HAN,
    ensures
        match scored {
            Some(result) => riichi_result(
                facts_of(hand@, context@.with_tsumo(is_tsumo), PairsPolicy::Distinct),
                yaku_views(yaku_list@),
            ) == Some(result@),
            None => riichi_result(
                facts_of(hand@, context@.with_tsumo(is_tsumo), PairsPolicy::Distinct),
                yaku_views(yaku_list@),
            ) is None,
        },
{
    let facts: HandFacts = gather_facts(hand, context, is_tsumo, PairsPolicy::Distinct);
    score_with(&facts, yaku_list)
}

/// The base measure of a hand.
pub fn calculate_fu(facts: &HandFacts) -> (fu: u32)
    ensures
        fu == fu_of(*facts),
{
    if facts.seven_pairs {
        return 25;
    }
    let mut fu: u32 = 20;
    if facts.is_tsumo {
        fu = fu + 2;
    } else if facts.menzen {
        fu = fu + 10;
    }
    (fu + 9) / 10 * 10
}

/// The base points of a multiplier and a base measure.
pub fn calculate_base_points(han: u32, fu: u32) -> (points: i32)
    ensures
        points == base_points(han as nat, fu as nat),
        0 <= points <= 8000,
{
    if han >= 13 {
        return 8000;
    }
    if han >= 11 {
        return 6000;
    }
    if han >= 8 {
        return 4000;
    }
    if han >= 6 {
        return 3000;
    }
    let factor: u64 = if han == 0 {
        4
    } else if han == 1 {
        8
    } else if han == 2 {
        16
    } else if han == 3 {
        32
    } else if han == 4 {
        64
    } else {
        128
    };
    let base: u64 = (fu as u64) * factor;
    if base > 2000 {
        2000
    } else {
        base as i32
    }
}

/// An amount rounded up to a whole number of hundreds.
fn round_up(amount: i32) -> (rounded: i32)
    requires
        -6 * MAX_BASE_POINTS <= amount <= 6 * MAX_BASE_POINTS,
    ensures
        rounded == hundreds(amount as int),
        amount <= rounded <= amount + 198,
{
    let raised: i32 = amount + 99;
    if raised >= 0 {
        raised / 100 * 100
    } else {
        -((-raised) / 100 * 100)
    }
}

/// What the winner receives for base points.
pub fn calculate_final_score(base_points: i32, is_dealer: bool, is_tsumo: bool) -> (points: i32)
    requires
        -MAX_BASE_POINTS <= base_points <= MAX_BASE_POINTS,
    ensures
        points == final_score(base_points as int, is_dealer, is_tsumo),
        0 <= base_points <= 8000 ==> 0 <= points <= 48000,
{
    if is_tsumo {
        if is_dealer {
            round_up(base_points * 2) * 3
        } else {
            let dealer_pay: i32 = round_up(base_points * 2);
            let non_dealer_pay: i32 = round_up(base_points);
            dealer_pay + non_dealer_pay * 2
        }
    } else if is_dealer {
        round_up(base_points * 6)
    } else {
        round_up(base_points * 4)
    }
}

/// Who pays what for base points.
pub fn settle(base_points: i32, is_dealer: bool, is_tsumo: bool) -> (transfer: Transfer)
    requires
        -MAX_BASE_POINTS <= base_points <= MAX_BASE_POINTS,
    ensures
        transfer == transfer_of(base_points as int, is_dealer, is_tsumo),
{
    let total: i32 = calculate_final_score(base_points, is_dealer, is_tsumo);
    if is_tsumo {
        if is_dealer {
            Transfer {
                total,
                from_discarder: 0,
                from_dealer: 0,
                from_each_other: round_up(base_points * 2),
            }
        } else {
            Transfer {
                total,
                from_discarder: 0,
                from_dealer: round_up(base_points * 2),
                from_each_other: round_up(base_points),
            }
        }
    } else {
        Transfer { total, from_discarder: total, from_dealer: 0, from_each_other: 0 }
    }
}

/// The points of a limit hand.
pub fn calculate_yakuman_score(is_dealer: bool, is_tsumo: bool, han: u32) -> (points: i32)
    requires
        han <= MAX_HAN,
    ensures
        points == yakuman_score(is_dealer, han as nat),
{
    let multiplier: i32 = (han / 13) as i32;
    let unit: i32 = if is_dealer {
        48000
    } else {
        32000
    };
    assert(unit * multiplier <= 48000 * 44739) by (nonlinear_arith)
        requires
            0 <= multiplier <= 44739,
            0 <= unit <= 48000,
    ;
    assert(unit * multiplier >= 0) by (nonlinear_arith)
        requires
            0 <= multiplier,
            0 <= unit,
    ;
    unit * multiplier
}

/// Whether a category of the list is a limit hand: a weight of 13 or
/// more.
pub fn is_yakuman(yaku_list: &[Yaku]) -> (limit: bool)
    ensures
        limit == has_limit(yaku_views(yaku_list@)),
{
    proof {
        lemma_yaku_views(yaku_list@);
    }
    let mut i: usize = 0;
    while i < yaku_list.len()
        invariant
            i <= yaku_list@.len(),
            yaku_views(yaku_list@).len() == yaku_list@.len(),
            forall|k: int|
                0 <= k < yaku_list@.len() ==> #[trigger] yaku_views(yaku_list@)[k] == (
                    yaku_list@[k].name@,
                    yaku_list@[k].han as nat,
                ),
            forall|k: int| 0 <= k < i ==> !((#[trigger] yaku_views(yaku_list@)[k]).1 >= 13),
        decreases yaku_list@.len() - i,
    {
        if yaku_list[i].han >= 13 {
            assert(yaku_views(yaku_list@)[i as int].1 >= 13);
            return true;
        }
        i = i + 1;
    }
    false
}

} // verus!
