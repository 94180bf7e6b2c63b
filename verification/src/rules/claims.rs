//! The claims a hand can make on a tile: the runs, the triple and the
//! quad that the tile completes with the concealed tiles of the hand.

use vstd::prelude::*;
use crate::hand::representation::{expand, triple_index, Hand, HandView};

use crate::meld::utils::{chi_windows, get_possible_chi_combinations};
use crate::tile::tile::tile_id;
use crate::tile::Tile;

verus! {

/// The runs as triples of tiles.
pub open spec fn as_triples(runs: Seq<Seq<Tile>>) -> Seq<(Tile, Tile, Tile)> {
    Seq::new(runs.len(), |i: int| (runs[i][0], runs[i][1], runs[i][2]))
}

impl HandView {
    /// The runs that the tile completes with two concealed tiles, each in
    /// rank order.
    pub open spec fn run_claims(self, tile: Tile) -> Seq<(Tile, Tile, Tile)> {
        as_triples(chi_windows(expand(self.counts, 43), tile))
    }

    /// The melds that the hand can declare with a tile discarded by
    /// another player, each as the list of its tiles: the runs, then the
    /// triple, then the quad.
    pub open spec fn meld_claims(self, tile: Tile) -> Seq<Seq<Tile>> {
        Seq::new(
            self.run_claims(tile).len(),
            |i: int|
                seq![self.run_claims(tile)[i].0, self.run_claims(tile)[i].1, self.run_claims(tile)[i].2],
        ) + (if self.can_claim_triple(tile) {
            seq![Seq::new(3, |k: int| tile)]
        } else {
            seq![]
        }) + (if self.can_claim_quad(tile, true) {
            seq![Seq::new(4, |k: int| tile)]
        } else {
            seq![]
        })
    }

    /// The tile completes a triple with two concealed tiles.
    pub open spec fn can_claim_triple(self, tile: Tile) -> bool {
        tile.wf() && self.counts[tile_id(tile)] >= 2
    }

    /// The tile completes a quad. A discard does with three concealed
    /// copies. A tile of the hand does when the hand holds all four
    /// copies, the drawn tile counted, or holds the tile beside a
    /// claimed triple of it.
    pub open spec fn can_claim_quad(self, tile: Tile, from_discard: bool) -> bool {
        tile.wf() && if from_discard {
            self.counts[tile_id(tile)] >= 3
        } else {
            self.shape()[tile_id(tile)] >= 4 || (self.shape()[tile_id(tile)] >= 1 && triple_index(
                self.melds,
                tile,
            ) >= 0)
        }
    }
}

/// The runs that the tile completes with two concealed tiles of the
/// hand.
pub fn run_claims_of(hand: &Hand, tile: Tile) -> (runs: Vec<(Tile, Tile, Tile)>)
    requires
        hand.wf(),
    ensures
        runs@ == hand@.run_claims(tile),
{
    let closed: Vec<Tile> = hand.get_closed_tiles();
    let windows: Vec<Vec<Tile>> = get_possible_chi_combinations(closed.as_slice(), tile);
    let ghost spec_windows = chi_windows(expand(hand@.counts, 43), tile);
    let mut runs: Vec<(Tile, Tile, Tile)> = Vec::new();
    let mut i: usize = 0;
    while i < windows.len()
        invariant
            i <= windows@.len(),
            windows@.len() == spec_windows.len(),
            forall|k: int| 0 <= k < windows@.len() ==> (#[trigger] windows@[k])@ == spec_windows[k],
            forall|k: int| 0 <= k < spec_windows.len() ==> (#[trigger] spec_windows[k]).len() == 3,
            runs@ == as_triples(spec_windows.take(i as int)),
        decreases windows@.len() - i,
    {
        let window: &Vec<Tile> = &windows[i];
        runs.push((window[0], window[1], window[2]));
        i = i + 1;
    }
    runs
}

/// Whether the tile completes a triple with two concealed tiles of the
/// hand.
pub fn triple_claim_of(hand: &Hand, tile: Tile) -> (can: bool)
    requires
        hand.wf(),
    ensures
        can == hand@.can_claim_triple(tile),
{
    hand.count_of(&tile) >= 2
}

/// Whether the tile completes a quad for the hand.
pub fn quad_claim_of(hand: &Hand, tile: Tile, from_discard: bool) -> (can: bool)
    requires
        hand.wf(),
    ensures
        can == hand@.can_claim_quad(tile, from_discard),
{
    if !tile.is_valid() {
        return false;
    }
    if from_discard {
        return hand.count_of(&tile) >= 3;
    }
    let drawn: usize = if hand.is_drawn_tile(&tile) {
        1
    } else {
        0
    };
    let concealed: usize = hand.count_of(&tile);
    proof {
        crate::tile::tile::lemma_id_round_trip(tile);
        if let Some(other) = hand@.drawn {
            crate::tile::tile::lemma_id_round_trip(other);
        }
        crate::hand::representation::lemma_total_bounds(hand@.counts, tile_id(tile));
    }
    let held: usize = concealed + drawn;
    if held >= 4 {
        return true;
    }
    held >= 1 && hand.has_triple_of(tile)
}

/// Every meld that the hand can declare with a tile discarded by another
/// player, each as the list of its tiles: the runs of `run_claims`, then
/// the triple if there is one, then the quad if there is one.
pub fn legal_melds_with(hand: &Hand, external_tile: Tile) -> (melds: Vec<Vec<Tile>>)
    requires
        hand.wf(),
    ensures
        melds@.len() == hand@.meld_claims(external_tile).len(),
        forall|i: int|
            0 <= i < melds@.len() ==> (#[trigger] melds@[i])@ == hand@.meld_claims(external_tile)[i],
{
    let runs: Vec<(Tile, Tile, Tile)> = run_claims_of(hand, external_tile);
    let mut melds: Vec<Vec<Tile>> = Vec::new();
    let mut i: usize = 0;
    while i < runs.len()
        invariant
            i <= runs@.len(),
            melds@.len() == i,
            forall|k: int|
                0 <= k < i ==> (#[trigger] melds@[k])@ == seq![runs@[k].0, runs@[k].1, runs@[k].2],
        decreases runs@.len() - i,
    {
        let mut tiles: Vec<Tile> = Vec::new();
        tiles.push(runs[i].0);
        tiles.push(runs[i].1);
        tiles.push(runs[i].2);
        melds.push(tiles);
        i = i + 1;
    }
    if triple_claim_of(hand, external_tile) {
        let mut tiles: Vec<Tile> = Vec::new();
        tiles.push(external_tile);
        tiles.push(external_tile);
        tiles.push(external_tile);
        melds.push(tiles);
    }
    if quad_claim_of(hand, external_tile, true) {
        let mut tiles: Vec<Tile> = Vec::new();
        tiles.push(external_tile);
        tiles.push(external_tile);
        tiles.push(external_tile);
        tiles.push(external_tile);
        melds.push(tiles);
    }
    melds
}

} // verus!
