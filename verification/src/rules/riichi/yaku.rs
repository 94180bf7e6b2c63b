//! The scoring categories of the Japanese variant.

use vstd::prelude::*;
use crate::game::context::GameContext;
use crate::hand::representation::Hand;
use crate::rules::common::win_patterns::PairsPolicy;
use crate::rules::facts::{facts_of, gather_facts, HandFacts};
use crate::rules::scoring::{
    add_entry, also, lemma_yaku_views, new_list, no_categories, weights_total, yaku_views, Yaku,
};
use crate::tile::Tile;

verus! {

/// The weight of a flush: one less when a meld lies face up.
pub open spec fn flush_weight(concealed_weight: nat, menzen: bool) -> nat {
    if menzen {
        concealed_weight
    } else {
        (concealed_weight - 1) as nat
    }
}

/// The categories that the way of winning, the simples and the triples
/// of honors give, with their weights.
pub open spec fn riichi_value_yaku(facts: HandFacts) -> Seq<(Seq<char>, nat)> {
    let list = no_categories();
    let list = also(list, facts.is_riichi && facts.menzen, "立直"@, 1);
    let list = also(list, facts.is_tsumo && facts.menzen, "门前清自摸和"@, 1);
    let list = also(list, facts.all_simples, "断幺九"@, 1);
    let list = also(list, facts.round_wind_triplet, "役牌:场风"@, 1);
    let list = also(list, facts.seat_wind_triplet, "役牌:自风"@, 1);
    also(list, facts.dragon_triplets > 0, "役牌:三元牌"@, facts.dragon_triplets as nat)
}

/// The categories that let a hand win, with their weights. The thirteen
/// singles are a limit hand and stand alone. A hand that is seven pairs
/// is scored as seven pairs.
pub open spec fn riichi_yaku(facts: HandFacts) -> Seq<(Seq<char>, nat)> {
    if facts.thirteen_orphans {
        also(no_categories(), true, "国士无双"@, 13)
    } else {
        let list = riichi_value_yaku(facts);
        let list = also(list, facts.seven_pairs, "七对子"@, 2);
        let list = also(list, facts.all_triplets, "对对和"@, 2);
        let list = also(list, facts.half_flush, "混一色"@, flush_weight(3, facts.menzen));
        also(list, facts.full_flush, "清一色"@, flush_weight(6, facts.menzen))
    }
}

/// All the categories of a hand: those that let it win and, if there is
/// one of them, the bonus tiles held. A limit hand counts no bonus.
pub open spec fn riichi_categories(facts: HandFacts) -> Seq<(Seq<char>, nat)> {
    if facts.thirteen_orphans || riichi_yaku(facts).len() == 0 {
        riichi_yaku(facts)
    } else {
        also(riichi_yaku(facts), facts.dora > 0, "宝牌"@, facts.dora as nat)
    }
}

/// The categories that the way of winning, the simples and the triples
/// of honors give, with the total of their weights.
fn value_yaku_of(facts: &HandFacts) -> (made: (Vec<Yaku>, u32))
    ensures
        yaku_views(made.0@) == riichi_value_yaku(*facts),
        made.1 == weights_total(yaku_views(made.0@)),
        made.1 <= 260,
{
    let mut list: Vec<Yaku> = new_list();
    let mut total: u32 = 0;
    total = add_entry(&mut list, total, facts.is_riichi && facts.menzen, "立直", 1);
    total = add_entry(&mut list, total, facts.is_tsumo && facts.menzen, "门前清自摸和", 1);
    total = add_entry(&mut list, total, facts.all_simples, "断幺九", 1);
    total = add_entry(&mut list, total, facts.round_wind_triplet, "役牌:场风", 1);
    total = add_entry(&mut list, total, facts.seat_wind_triplet, "役牌:自风", 1);
    total = add_entry(
        &mut list,
        total,
        facts.dragon_triplets > 0,
        "役牌:三元牌",
        facts.dragon_triplets as u32,
    );
    (list, total)
}

/// The categories that let a hand win, from its facts, with the total
/// of their weights.
fn winning_yaku_of(facts: &HandFacts) -> (made: (Vec<Yaku>, u32))
    ensures
        yaku_views(made.0@) == riichi_yaku(*facts),
        made.1 == weights_total(yaku_views(made.0@)),
        made.1 <= 273,
{
    if facts.thirteen_orphans {
        let mut list: Vec<Yaku> = new_list();
        let total: u32 = add_entry(&mut list, 0, true, "国士无双", 13);
        return (list, total);
    }
    let (mut list, mut total) = value_yaku_of(facts);
    total = add_entry(&mut list, total, facts.seven_pairs, "七对子", 2);
    total = add_entry(&mut list, total, facts.all_triplets, "对对和", 2);
    let half: u32 = if facts.menzen {
        3
    } else {
        2
    };
    let full: u32 = if facts.menzen {
        6
    } else {
        5
    };
    total = add_entry(&mut list, total, facts.half_flush, "混一色", half);
    total = add_entry(&mut list, total, facts.full_flush, "清一色", full);
    (list, total)
}

/// The categories of a hand from its facts.
pub fn yaku_of(facts: &HandFacts) -> (list: Vec<Yaku>)
    ensures
        yaku_views(list@) == riichi_categories(*facts),
        weights_total(yaku_views(list@)) <= 528,
{
    let (mut list, total) = winning_yaku_of(facts);
    proof {
        lemma_yaku_views(list@);
    }
    if !facts.thirteen_orphans && list.len() > 0 {
        let _ = add_entry(&mut list, total, facts.dora > 0, "宝牌", facts.dora as u32);
    }
    list
}

/// The categories of a hand in a context, for the given winning tile and
/// way of winning.
pub fn calculate_yaku(hand: &Hand, context: &GameContext, win_tile: Tile, is_tsumo: bool) -> (list:
    Vec<Yaku>)
    requires
        hand.wf(),
    ensures
        yaku_views(list@) == riichi_categories(
            facts_of(hand@, context@.with_tsumo(is_tsumo), PairsPolicy::Distinct),
        ),
        weights_total(yaku_views(list@)) <= 528,
{
    let facts: HandFacts = gather_facts(hand, context, is_tsumo, PairsPolicy::Distinct);
    yaku_of(&facts)
}

} // verus!
