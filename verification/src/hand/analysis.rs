//! Distance to completion of a hand in each of the three families of
//! winning shapes, and the tiles a hand is waiting for.

use vstd::prelude::*;
use crate::hand::decompose::{
    fits_from, gain, is_best_gain, lemma_best_exists, lemma_best_unique, search, Block,
};
use crate::hand::representation::{counters, Hand, HandView};
use crate::tile::tile::{lemma_id_round_trip, tile_at, tile_id};
use crate::tile::Tile;

verus! {

/// The distance reported for a family that the hand cannot complete.
pub const IMPOSSIBLE: i8 = 9;

/// The number of declared melds that count as groups: at most four.
pub open spec fn meld_groups(melds: nat) -> int {
    if melds > 4 {
        4
    } else {
        melds as int
    }
}

/// `distance` is the standard distance of the counted tiles beside the
/// declared melds: 8, less 2 for each meld, less what the best
/// arrangement of the tiles into at most four groups and partial groups,
/// melds included, and one head is worth.
pub open spec fn is_standard_distance(counts: Seq<nat>, melds: nat, distance: int) -> bool {
    is_best_gain(counts, 0, 4 - meld_groups(melds), 1, 8 - 2 * meld_groups(melds) - distance)
}

/// The standard distance of the counted tiles beside the declared melds.
pub open spec fn standard_distance(counts: Seq<nat>, melds: nat) -> int {
    choose|distance: int| is_standard_distance(counts, melds, distance)
}

/// The standard distance exists, lies between -1 and 8, and is the only
/// number that `is_standard_distance` accepts.
pub proof fn lemma_standard_distance(counts: Seq<nat>, melds: nat)
    ensures
        is_standard_distance(counts, melds, standard_distance(counts, melds)),
        -1 <= standard_distance(counts, melds) <= 8,
        forall|distance: int| #[trigger]
            is_standard_distance(counts, melds, distance) ==> distance == standard_distance(
                counts,
                melds,
            ),
{
    let groups = meld_groups(melds);
    lemma_best_exists(counts, 0, 4 - groups, 1);
    let best = choose|best: int|
        0 <= best <= 2 * (4 - groups) + 1 && #[trigger] is_best_gain(
            counts,
            0,
            4 - groups,
            1,
            best,
        );
    assert(is_standard_distance(counts, melds, 8 - 2 * groups - best));
    assert forall|distance: int| #[trigger]
        is_standard_distance(counts, melds, distance) implies distance == 8 - 2 * groups
        - best by {
        lemma_best_unique(counts, 0, 4 - groups, 1, best, 8 - 2 * groups - distance);
    }
}

/// The number of identities below `upto` of which the counts hold at
/// least `least` copies.
pub open spec fn kinds_with(counts: Seq<nat>, upto: int, least: nat) -> nat
    decreases upto,
{
    if upto <= 0 {
        0
    } else {
        kinds_with(counts, upto - 1, least) + if counts[upto - 1] >= least {
            1nat
        } else {
            0nat
        }
    }
}

/// The distance to seven pairs: 6 less the number of identities held at
/// least twice, never below -1. Copies beyond the second of an identity
/// make no further pair. With a declared meld the family is impossible.
pub open spec fn pairs_distance(counts: Seq<nat>, melds: nat) -> int {
    if melds > 0 {
        9
    } else if kinds_with(counts, 34, 2) >= 7 {
        -1
    } else {
        6 - kinds_with(counts, 34, 2)
    }
}

/// Whether the id is that of a one, a nine, a wind or a dragon.
pub open spec fn is_orphan(id: int) -> bool {
    if id < 27 {
        0 <= id && (id % 9 == 0 || id % 9 == 8)
    } else {
        id < 34
    }
}

/// The counts hold nothing but ones, nines, winds and dragons.
pub open spec fn only_orphans(counts: Seq<nat>) -> bool {
    forall|id: int| 0 <= id < 43 && !is_orphan(id) ==> #[trigger] counts[id] == 0
}

/// The number of ones, nines, winds and dragons below `upto` of which the
/// counts hold at least `least` copies.
pub open spec fn orphan_kinds(counts: Seq<nat>, upto: int, least: nat) -> nat
    decreases upto,
{
    if upto <= 0 {
        0
    } else {
        orphan_kinds(counts, upto - 1, least) + if is_orphan(upto - 1) && counts[upto - 1]
            >= least {
            1nat
        } else {
            0nat
        }
    }
}

/// The distance to the thirteen singles: 13 less the number of the
/// thirteen identities held, less 1 more if one of them is held twice.
/// With any other tile, or a declared meld, the family is impossible.
pub open spec fn singles_distance(counts: Seq<nat>, melds: nat) -> int {
    if melds > 0 || !only_orphans(counts) {
        9
    } else {
        13 - orphan_kinds(counts, 34, 1) - if orphan_kinds(counts, 34, 2) > 0 {
            1int
        } else {
            0int
        }
    }
}

/// The least of three numbers.
pub open spec fn least3(a: int, b: int, c: int) -> int {
    if a <= b && a <= c {
        a
    } else if b <= c {
        b
    } else {
        c
    }
}

/// The distance to completion of the counted tiles beside the declared
/// melds: the least of the distances of the three families.
pub open spec fn distance(counts: Seq<nat>, melds: nat) -> int {
    least3(
        standard_distance(counts, melds),
        pairs_distance(counts, melds),
        singles_distance(counts, melds),
    )
}

/// The counts with one more copy of the identity.
pub open spec fn one_more(counts: Seq<nat>, id: int) -> Seq<nat> {
    counts.update(id, counts[id] + 1)
}

impl HandView {
    /// The distance to completion of the hand.
    pub open spec fn distance(self) -> int {
        distance(self.shape(), self.melds.len())
    }

    /// One more copy of the identity would complete the hand, and the
    /// hand does not show all four copies already.
    pub open spec fn completes(self, id: int) -> bool {
        self.visible()[id] < 4 && distance(one_more(self.shape(), id), self.melds.len()) == -1
    }

    /// The copies of the identity still to come: what the table says if
    /// there is one, else 4 less the copies the hand shows, at least 0.
    pub open spec fn supply(self, remaining: Option<Seq<nat>>, id: int) -> nat {
        match remaining {
            Some(table) => if id < table.len() {
                table[id]
            } else {
                0
            },
            None => if self.visible()[id] < 4 {
                (4 - self.visible()[id]) as nat
            } else {
                0
            },
        }
    }

    /// The waiting tiles with an id below `upto`, in the order of the ids,
    /// each with its supply.
    pub open spec fn waits_below(self, remaining: Option<Seq<nat>>, upto: int) -> Seq<(Tile, nat)>
        decreases upto,
    {
        if upto <= 0 {
            seq![]
        } else {
            self.waits_below(remaining, upto - 1) + if self.completes(upto - 1) {
                seq![(tile_at(upto - 1), self.supply(remaining, upto - 1))]
            } else {
                seq![]
            }
        }
    }

    /// The waiting set of the hand: empty unless the distance is 0, else
    /// every tile that completes the hand, with its supply.
    pub open spec fn waits(self, remaining: Option<Seq<nat>>) -> Seq<(Tile, nat)> {
        if self.distance() == 0 {
            self.waits_below(remaining, 34)
        } else {
            seq![]
        }
    }
}

/// The distance to completion is never below -1 and never above 8.
pub proof fn lemma_distance_range(counts: Seq<nat>, melds: nat)
    ensures
        -1 <= distance(counts, melds) <= 8,
        -1 <= standard_distance(counts, melds) <= 8,
        -1 <= pairs_distance(counts, melds),
        -1 <= singles_distance(counts, melds),
{
    lemma_standard_distance(counts, melds);
    lemma_orphan_kinds_bound(counts, 34, 2);
}

/// One more tile never increases the standard distance: whatever can be
/// arranged without the tile can be arranged with it.
pub proof fn lemma_more_tiles_never_further(counts: Seq<nat>, melds: nat, id: int)
    requires
        counts.len() == 43,
        0 <= id < 43,
    ensures
        standard_distance(one_more(counts, id), melds) <= standard_distance(counts, melds),
{
    let more = one_more(counts, id);
    let room = 4 - meld_groups(melds);
    lemma_standard_distance(counts, melds);
    lemma_standard_distance(more, melds);
    let before = 8 - 2 * meld_groups(melds) - standard_distance(counts, melds);
    let blocks = choose|blocks: Seq<Block>| #[trigger]
        fits_from(blocks, counts, 0, room, 1) && gain(blocks) == before;
    assert(fits_from(blocks, more, 0, room, 1));
}

/// A hand is the same after a tile is removed and added again, and so
/// are its distance and its waiting set.
pub proof fn lemma_remove_then_add(view: HandView, tile: Tile, remaining: Option<Seq<nat>>)
    requires
        view.wf(),
        tile.wf(),
        view.counts[tile_id(tile)] > 0,
    ensures
        view.without_tile(tile).with_tile(tile) == view,
        view.without_tile(tile).with_tile(tile).distance() == view.distance(),
        view.without_tile(tile).with_tile(tile).waits(remaining) == view.waits(remaining),
{
    lemma_id_round_trip(tile);
    assert(view.without_tile(tile).with_tile(tile).counts =~= view.counts);
}

/// A table of remaining copies as plain values.
pub open spec fn table_view(table: Option<&Vec<usize>>) -> Option<Seq<nat>> {
    match table {
        Some(list) => Some(counters(list@)),
        None => None,
    }
}

/// A list of waits as plain values.
pub open spec fn wait_views(waits: Seq<(Tile, usize)>) -> Seq<(Tile, nat)> {
    Seq::new(waits.len(), |i: int| (waits[i].0, waits[i].1 as nat))
}

/// What the analysis of a hand finds.
#[derive(Debug, Clone, Default)]
pub struct HandAnalysisResult {
    /// The distance to completion: -1 complete, 0 waiting, else further.
    pub shanten: i8,
    /// The waiting tiles with their supply.
    pub waits: Vec<(Tile, usize)>,
}

/// The parts a hand can be taken apart into.
#[derive(Debug, Clone, PartialEq, Eq)]
pub enum HandComponent {
    /// A complete group.
    Meld(crate::meld::Meld),
    /// The pair of the hand.
    Pair(Tile),
    /// Two tiles that wait for a third.
    Taatsu(Tile, Tile),
    /// A tile on its own.
    Isolated(Tile),
}

/// The standard distance, computed on a table of counts.
pub fn standard_distance_of(counts: &mut Vec<usize>, melds: usize) -> (distance: i8)
    requires
        old(counts)@.len() == 43,
    ensures
        final(counts)@ == old(counts)@,
        distance == standard_distance(counters(old(counts)@), melds as nat),
        -1 <= distance <= 8,
{
    let groups: u8 = if melds > 4 {
        4
    } else {
        melds as u8
    };
    let best: u8 = search(counts, 0, 4 - groups, 1);
    proof {
        lemma_standard_distance(counters(old(counts)@), melds as nat);
    }
    8 - 2 * (groups as i8) - (best as i8)
}

/// The number of identities held at least `least` times.
pub fn kinds_held(counts: &Vec<usize>, least: usize) -> (kinds: usize)
    requires
        counts@.len() == 43,
    ensures
        kinds == kinds_with(counters(counts@), 34, least as nat),
        kinds <= 34,
{
    let mut kinds: usize = 0;
    let mut i: usize = 0;
    while i < 34
        invariant
            i <= 34,
            counts@.len() == 43,
            kinds <= i,
            kinds == kinds_with(counters(counts@), i as int, least as nat),
        decreases 34 - i,
    {
        if counts[i] >= least {
            kinds = kinds + 1;
        }
        i = i + 1;
    }
    kinds
}

/// The number of identities held at least twice.
pub fn pair_kinds_of(counts: &Vec<usize>) -> (pairs: usize)
    requires
        counts@.len() == 43,
    ensures
        pairs == kinds_with(counters(counts@), 34, 2),
        pairs <= 34,
{
    kinds_held(counts, 2)
}

/// Whether the counts hold nothing but ones, nines, winds and dragons.
pub fn only_orphans_held(counts: &Vec<usize>) -> (only: bool)
    requires
        counts@.len() == 43,
    ensures
        only == only_orphans(counters(counts@)),
{
    let mut i: usize = 0;
    while i < 43
        invariant
            i <= 43,
            counts@.len() == 43,
            forall|id: int|
                0 <= id < i && !is_orphan(id) ==> #[trigger] counters(counts@)[id] == 0,
        decreases 43 - i,
    {
        if !orphan_id(i) && counts[i] > 0 {
            assert(counters(counts@)[i as int] != 0);
            return false;
        }
        i = i + 1;
    }
    true
}

/// The number of ones, nines, winds and dragons held at least `least`
/// times.
pub fn orphan_kinds_held(counts: &Vec<usize>, least: usize) -> (kinds: usize)
    requires
        counts@.len() == 43,
    ensures
        kinds == orphan_kinds(counters(counts@), 34, least as nat),
        kinds <= 34,
{
    let mut kinds: usize = 0;
    let mut i: usize = 0;
    while i < 34
        invariant
            i <= 34,
            counts@.len() == 43,
            kinds <= i,
            kinds == orphan_kinds(counters(counts@), i as int, least as nat),
        decreases 34 - i,
    {
        if orphan_id(i) && counts[i] >= least {
            kinds = kinds + 1;
        }
        i = i + 1;
    }
    kinds
}

/// The distance to seven pairs, computed on a table of counts.
pub fn pairs_distance_of(counts: &Vec<usize>, melds: usize) -> (distance: i8)
    requires
        counts@.len() == 43,
    ensures
        distance == pairs_distance(counters(counts@), melds as nat),
        -1 <= distance <= 9,
{
    if melds > 0 {
        return IMPOSSIBLE;
    }
    let pairs: usize = pair_kinds_of(counts);
    if pairs >= 7 {
        -1
    } else {
        6 - (pairs as i8)
    }
}

/// Whether the id is that of a one, a nine, a wind or a dragon.
pub fn orphan_id(id: usize) -> (yes: bool)
    ensures
        yes == is_orphan(id as int),
{
    if id < 27 {
        id % 9 == 0 || id % 9 == 8
    } else {
        id < 34
    }
}

/// The distance to the thirteen singles, computed on a table of counts.
pub fn singles_distance_of(counts: &Vec<usize>, melds: usize) -> (distance: i8)
    requires
        counts@.len() == 43,
    ensures
        distance == singles_distance(counters(counts@), melds as nat),
        -1 <= distance <= 13,
{
    if melds > 0 || !only_orphans_held(counts) {
        return IMPOSSIBLE;
    }
    let kinds: usize = orphan_kinds_held(counts, 1);
    let doubled: bool = orphan_kinds_held(counts, 2) > 0;
    proof {
        lemma_orphan_kinds_bound(counters(counts@), 34, 1);
    }
    if doubled {
        13 - kinds as i8 - 1
    } else {
        13 - kinds as i8
    }
}

/// There are thirteen ones, nines, winds and dragons, and the kinds held
/// twice are among the kinds held.
pub proof fn lemma_orphan_kinds_bound(counts: Seq<nat>, upto: int, least: nat)
    requires
        0 <= upto <= 34,
        least >= 1,
    ensures
        orphan_kinds(counts, upto, least) <= orphan_kinds(counts, upto, 1),
        orphan_kinds(counts, upto, 1) <= orphan_kinds(Seq::new(43, |id: int| 1nat), upto, 1),
        orphan_kinds(Seq::new(43, |id: int| 1nat), 34, 1) == 13,
    decreases upto,
{
    if upto > 0 {
        lemma_orphan_kinds_bound(counts, upto - 1, least);
    }
    reveal_with_fuel(orphan_kinds, 35);
}

/// The distance to completion, computed on a table of counts.
pub fn distance_of(counts: &mut Vec<usize>, melds: usize) -> (least: i8)
    requires
        old(counts)@.len() == 43,
    ensures
        final(counts)@ == old(counts)@,
        least == distance(counters(old(counts)@), melds as nat),
        -1 <= least <= 8,
{
    let standard: i8 = standard_distance_of(counts, melds);
    let pairs: i8 = pairs_distance_of(counts, melds);
    let singles: i8 = singles_distance_of(counts, melds);
    if standard <= pairs && standard <= singles {
        standard
    } else if pairs <= singles {
        pairs
    } else {
        singles
    }
}

/// The calculator of distances to completion.
pub struct ShantenCalculator;

impl ShantenCalculator {
    /// The distance to completion of the hand: the least over the three
    /// families. -1 says complete, 0 says one tile away.
    pub fn calculate(hand: &Hand) -> (distance: i8)
        requires
            hand.wf(),
        ensures
            distance == hand@.distance(),
            -1 <= distance <= 8,
    {
        let mut counts = hand.shape_counts();
        distance_of(&mut counts, hand.get_melds().len())
    }

    /// The distance to four groups and a pair.
    pub fn calculate_standard_form(hand: &Hand) -> (distance: i8)
        requires
            hand.wf(),
        ensures
            distance == standard_distance(hand@.shape(), hand@.melds.len()),
            -1 <= distance <= 8,
    {
        let mut counts = hand.shape_counts();
        standard_distance_of(&mut counts, hand.get_melds().len())
    }

    /// The distance to seven pairs; `IMPOSSIBLE` with a declared meld.
    pub fn calculate_chiitoitsu(hand: &Hand) -> (distance: i8)
        requires
            hand.wf(),
        ensures
            distance == pairs_distance(hand@.shape(), hand@.melds.len()),
            hand@.melds.len() > 0 ==> distance == IMPOSSIBLE,
            -1 <= distance <= 9,
    {
        let counts = hand.shape_counts();
        pairs_distance_of(&counts, hand.get_melds().len())
    }

    /// The distance to the thirteen singles; `IMPOSSIBLE` with a declared
    /// meld or a tile that is none of the thirteen.
    pub fn calculate_kokushi_musou(hand: &Hand) -> (distance: i8)
        requires
            hand.wf(),
        ensures
            distance == singles_distance(hand@.shape(), hand@.melds.len()),
            -1 <= distance <= 13,
    {
        let counts = hand.shape_counts();
        singles_distance_of(&counts, hand.get_melds().len())
    }

    /// The number of identities of which the hand holds two or more,
    /// the drawn tile counted.
    pub fn count_pairs(hand: &Hand) -> (pairs: usize)
        requires
            hand.wf(),
        ensures
            pairs == kinds_with(hand@.shape(), 34, 2),
    {
        let counts = hand.shape_counts();
        pair_kinds_of(&counts)
    }
}

/// The waiting set of a hand at distance 0, computed on its tables.
fn waits_of(hand: &Hand, remaining_tiles: Option<&Vec<usize>>) -> (waits: Vec<(Tile, usize)>)
    requires
        hand.wf(),
    ensures
        wait_views(waits@) == hand@.waits_below(table_view(remaining_tiles), 34),
{
    let mut waits: Vec<(Tile, usize)> = Vec::new();
    let mut counts = hand.shape_counts();
    let visible = hand.visible_counts();
    let melds: usize = hand.get_melds().len();
    let mut id: usize = 0;
    while id < 34
        invariant
            id <= 34,
            hand.wf(),
            melds == hand@.melds.len(),
            counts@.len() == 43,
            visible@.len() == 43,
            counters(counts@) == hand@.shape(),
            counters(visible@) == hand@.visible(),
            wait_views(waits@) == hand@.waits_below(table_view(remaining_tiles), id as int),
        decreases 34 - id,
    {
        assert(counters(visible@)[id as int] == visible@[id as int]);
        assert(counters(counts@)[id as int] == counts@[id as int]);
        if visible[id] < 4 {
            let held: usize = counts[id];
            counts.set(id, held + 1);
            assert(counters(counts@) =~= one_more(hand@.shape(), id as int));
            let after: i8 = distance_of(&mut counts, melds);
            counts.set(id, held);
            if after == -1 {
                let supply: usize = match remaining_tiles {
                    Some(table) => {
                        if id < table.len() {
                            table[id]
                        } else {
                            0
                        }
                    },
                    None => 4 - visible[id],
                };
                let tile: Tile = match Tile::from_id(id as u8) {
                    Some(tile) => tile,
                    None => Tile::Joker,
                };
                waits.push((tile, supply));
            }
        }
        id = id + 1;
    }
    waits
}

/// Analyses a hand: its distance to completion and, at distance 0, its
/// waiting set. `remaining_tiles`, if given, says for each id how many
/// copies are still to come; without it the supply of a tile is 4 less
/// the copies the hand shows.
pub fn analyze_hand(hand: &Hand, remaining_tiles: Option<&Vec<usize>>) -> (found:
    HandAnalysisResult)
    requires
        hand.wf(),
    ensures
        found.shanten == hand@.distance(),
        -1 <= found.shanten <= 8,
        wait_views(found.waits@) == hand@.waits(table_view(remaining_tiles)),
{
    let shanten: i8 = ShantenCalculator::calculate(hand);
    let waits: Vec<(Tile, usize)> = if shanten == 0 {
        waits_of(hand, remaining_tiles)
    } else {
        Vec::new()
    };
    HandAnalysisResult { shanten, waits }
}

} // verus!
