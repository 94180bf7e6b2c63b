//! What the scoring variants look at in a complete hand, gathered once.

use vstd::prelude::*;
use crate::game::context::{ContextView, GameContext};
use crate::hand::analysis::{kinds_held, kinds_with};
use crate::hand::representation::{counters, Hand, HandView};
use crate::meld::types::{meld_views, Meld, MeldType, MeldView};
use crate::player::model::direction_wind;
use crate::rules::common::win_patterns::{
    no_extras, pairs_win, pairs_win_of, singles_win, singles_win_of, standard_win,
    standard_win_of, without_extras, PairsPolicy,
};
use crate::tile::tile::tile_id;
use crate::tile::Tile;

verus! {

/// The facts about a complete hand that decide its scoring categories.
#[derive(Debug, Clone, Copy, PartialEq, Eq, Structural)]
pub struct HandFacts {
    /// The hand is four groups and a pair.
    pub standard: bool,
    /// The hand is seven pairs.
    pub seven_pairs: bool,
    /// The hand is the thirteen singles.
    pub thirteen_orphans: bool,
    /// No meld of the hand lies face up.
    pub menzen: bool,
    /// Every tile is numbered from two to eight.
    pub all_simples: bool,
    /// Every tile is of one suit.
    pub full_flush: bool,
    /// Every tile is of one suit or an honor, with some of both.
    pub half_flush: bool,
    /// The hand is four triples or quads and a pair.
    pub all_triplets: bool,
    /// The number of triples of dragons.
    pub dragon_triplets: u8,
    /// The hand has a triple of the wind of the seat.
    pub seat_wind_triplet: bool,
    /// The hand has a triple of the wind of the round.
    pub round_wind_triplet: bool,
    /// The copies held of the tiles that the indicators point to, up to
    /// 255.
    pub dora: u8,
    /// The bonus tiles laid aside, up to 255.
    pub flowers: u8,
    /// The hand was completed by the player's own draw.
    pub is_tsumo: bool,
    /// The player is the dealer.
    pub is_dealer: bool,
    /// The player has declared ready.
    pub is_riichi: bool,
}

/// Some tile with an id from `low` up to, not including, `high` is held.
pub open spec fn any_held(tiles: Seq<nat>, low: int, high: int) -> bool {
    exists|id: int| low <= id < high && #[trigger] tiles[id] > 0
}

/// The number of suits of which a tile is held.
pub open spec fn suits_held(tiles: Seq<nat>) -> int {
    (if any_held(tiles, 0, 9) {
        1int
    } else {
        0int
    }) + (if any_held(tiles, 9, 18) {
        1int
    } else {
        0int
    }) + (if any_held(tiles, 18, 27) {
        1int
    } else {
        0int
    })
}

/// A one or a nine is held.
pub open spec fn terminals_held(tiles: Seq<nat>) -> bool {
    tiles[0] > 0 || tiles[8] > 0 || tiles[9] > 0 || tiles[17] > 0 || tiles[18] > 0 || tiles[26]
        > 0
}

/// Every tile held is numbered from two to eight.
pub open spec fn all_simples(tiles: Seq<nat>) -> bool {
    !any_held(tiles, 27, 43) && !terminals_held(tiles)
}

/// Every tile held is of one suit.
pub open spec fn full_flush(tiles: Seq<nat>) -> bool {
    suits_held(tiles) == 1 && !any_held(tiles, 27, 43)
}

/// Every tile held is of one suit or an honor, with some of both.
pub open spec fn half_flush(tiles: Seq<nat>) -> bool {
    suits_held(tiles) == 1 && any_held(tiles, 27, 34) && !any_held(tiles, 34, 43)
}

/// No meld is a run.
pub open spec fn no_runs(melds: Seq<MeldView>) -> bool {
    forall|i: int| 0 <= i < melds.len() ==> !((#[trigger] melds[i]).meld_type is Chi)
}

/// The concealed tiles are triples and one pair, the melds are triples
/// or quads, and together they are four groups.
pub open spec fn all_triplets(view: HandView) -> bool {
    let shape = view.shape();
    &&& no_runs(view.melds)
    &&& no_extras(shape)
    &&& kinds_with(shape, 34, 1) == kinds_with(shape, 34, 2)
    &&& kinds_with(shape, 34, 2) == kinds_with(shape, 34, 3) + 1
    &&& kinds_with(shape, 34, 4) == 0
    &&& kinds_with(shape, 34, 3) + view.melds.len() == 4
}

/// 1 if three of the tile with the id are shown, else 0.
pub open spec fn triple_shown(tiles: Seq<nat>, id: int) -> int {
    if tiles[id] >= 3 {
        1
    } else {
        0
    }
}

/// The copies shown of the listed tiles, added up over the list.
pub open spec fn listed_total(tiles: Seq<nat>, listed: Seq<Tile>) -> nat
    decreases listed.len(),
{
    if listed.len() == 0 {
        0
    } else {
        listed_total(tiles, listed.drop_last()) + if listed.last().wf() {
            tiles[tile_id(listed.last())]
        } else {
            0
        }
    }
}

/// A count as it is kept: at most 255.
pub open spec fn up_to_255(count: nat) -> nat {
    if count > 255 {
        255
    } else {
        count
    }
}

/// The facts about a hand in a context, the seven pairs under a policy.
pub open spec fn facts_of(view: HandView, context: ContextView, policy: PairsPolicy) -> HandFacts {
    let shape = view.shape();
    let shown = view.visible();
    let standard = standard_win(shape, view.melds.len());
    HandFacts {
        standard,
        seven_pairs: pairs_win(shape, view.melds.len(), policy),
        thirteen_orphans: singles_win(shape, view.melds.len()),
        menzen: view.is_menzen(),
        all_simples: all_simples(shown),
        full_flush: full_flush(shown),
        half_flush: half_flush(shown),
        all_triplets: all_triplets(view),
        dragon_triplets: if standard {
            (triple_shown(shown, 31) + triple_shown(shown, 32) + triple_shown(shown, 33)) as u8
        } else {
            0
        },
        seat_wind_triplet: standard && shown[tile_id(
            Tile::Wind(direction_wind(context.player_wind)),
        )] >= 3,
        round_wind_triplet: standard && shown[tile_id(
            Tile::Wind(direction_wind(context.round_wind)),
        )] >= 3,
        dora: up_to_255(listed_total(shown, context.dora)) as u8,
        flowers: up_to_255(view.flowers.len()) as u8,
        is_tsumo: context.is_tsumo,
        is_dealer: context.is_dealer,
        is_riichi: context.is_riichi,
    }
}

/// Whether some tile with an id in the range is held.
fn held_between(counts: &Vec<usize>, low: usize, high: usize) -> (held: bool)
    requires
        counts@.len() == 43,
        low <= high <= 43,
    ensures
        held == any_held(counters(counts@), low as int, high as int),
{
    let mut id: usize = low;
    while id < high
        invariant
            low <= id <= high,
            high <= 43,
            counts@.len() == 43,
            forall|k: int| low <= k < id ==> !(#[trigger] counters(counts@)[k] > 0),
        decreases high - id,
    {
        if counts[id] > 0 {
            assert(counters(counts@)[id as int] > 0);
            return true;
        }
        id = id + 1;
    }
    false
}

/// Whether no meld of the list is a run.
fn without_runs(melds: &Vec<Meld>) -> (none: bool)
    ensures
        none == no_runs(meld_views(melds@)),
{
    let mut i: usize = 0;
    while i < melds.len()
        invariant
            i <= melds@.len(),
            forall|k: int| 0 <= k < i ==> !((#[trigger] meld_views(melds@)[k]).meld_type is Chi),
        decreases melds@.len() - i,
    {
        assert(meld_views(melds@)[i as int] == melds@[i as int]@);
        match melds[i].meld_type {
            MeldType::Chi => {
                return false;
            },
            _ => {},
        }
        i = i + 1;
    }
    true
}

/// The copies shown of the listed tiles, up to 255.
fn count_listed(shown: &Vec<usize>, listed: &Vec<Tile>) -> (count: u8)
    requires
        shown@.len() == 43,
    ensures
        count == up_to_255(listed_total(counters(shown@), listed@)),
{
    let mut count: u8 = 0;
    let mut i: usize = 0;
    while i < listed.len()
        invariant
            i <= listed@.len(),
            shown@.len() == 43,
            count == up_to_255(listed_total(counters(shown@), listed@.take(i as int))),
        decreases listed@.len() - i,
    {
        assert(listed@.take(i + 1).drop_last() == listed@.take(i as int));
        if listed[i].is_valid() {
            let copies: usize = shown[listed[i].to_id() as usize];
            if copies >= 255 - count as usize {
                count = 255;
            } else {
                count = count + copies as u8;
            }
        }
        i = i + 1;
    }
    assert(listed@.take(i as int) == listed@);
    count
}

/// Gathers the facts about a hand in a context, for the given way of
/// winning.
pub fn gather_facts(hand: &Hand, context: &GameContext, is_tsumo: bool, policy: PairsPolicy) -> (facts:
    HandFacts)
    requires
        hand.wf(),
    ensures
        facts == facts_of(hand@, context@.with_tsumo(is_tsumo), policy),
{
    let mut shape = hand.shape_counts();
    let shown = hand.visible_counts();
    let melds: usize = hand.get_melds().len();
    let standard: bool = standard_win_of(&mut shape, melds);
    let characters: bool = held_between(&shown, 0, 9);
    let dots: bool = held_between(&shown, 9, 18);
    let bamboos: bool = held_between(&shown, 18, 27);
    let honors: bool = held_between(&shown, 27, 34);
    let extras: bool = held_between(&shown, 34, 43);
    let one_suit: bool = (characters && !dots && !bamboos) || (!characters && dots && !bamboos)
        || (!characters && !dots && bamboos);
    let terminals: bool = shown[0] > 0 || shown[8] > 0 || shown[9] > 0 || shown[17] > 0
        || shown[18] > 0 || shown[26] > 0;
    let held: usize = kinds_held(&shape, 1);
    let twice: usize = kinds_held(&shape, 2);
    let thrice: usize = kinds_held(&shape, 3);
    let four: usize = kinds_held(&shape, 4);
    let triplets: bool = without_runs(hand.get_melds()) && without_extras(&shape) && held == twice
        && twice
        == thrice + 1 && four == 0 && thrice + melds == 4;
    let mut dragons: u8 = 0;
    if standard {
        if shown[31] >= 3 {
            dragons = dragons + 1;
        }
        if shown[32] >= 3 {
            dragons = dragons + 1;
        }
        if shown[33] >= 3 {
            dragons = dragons + 1;
        }
    }
    let flowers: u8 = if hand.get_flowers().len() > 255 {
        255
    } else {
        hand.get_flowers().len() as u8
    };
    HandFacts {
        standard,
        seven_pairs: pairs_win_of(&shape, melds, policy),
        thirteen_orphans: singles_win_of(&shape, melds),
        menzen: hand.is_menzen(),
        all_simples: !honors && !extras && !terminals,
        full_flush: one_suit && !honors && !extras,
        half_flush: one_suit && honors && !extras,
        all_triplets: triplets,
        dragon_triplets: dragons,
        seat_wind_triplet: standard && shown[context.player_wind.tile_id()] >= 3,
        round_wind_triplet: standard && shown[context.round_wind.tile_id()] >= 3,
        dora: count_listed(&shown, &context.dora),
        flowers,
        is_tsumo,
        is_dealer: context.is_dealer(),
        is_riichi: context.is_riichi,
    }
}

} // verus!
