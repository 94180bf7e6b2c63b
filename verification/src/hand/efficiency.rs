//! Discard efficiency: what each discard leaves, and the discard that
//! leaves most.

use vstd::prelude::*;
use crate::hand::analysis::{analyze_hand, table_view, wait_views, HandAnalysisResult, ShantenCalculator};
use crate::hand::representation::{Hand, HandView};
use crate::tile::tile::{lemma_id_round_trip, tile_at, tile_id};
use crate::tile::Tile;

verus! {

/// What a discard leaves.
#[derive(Debug, Clone)]
pub struct EfficiencyInfo {
    /// The distance to completion after the discard.
    pub shanten: i8,
    /// That distance less the distance before the discard.
    pub shanten_change: i8,
    /// The number of tiles waited for after the discard.
    pub useful_tile_kinds: usize,
    /// The copies of those tiles still to come, all together.
    pub useful_tile_count: usize,
    /// The tiles waited for after the discard, each with its supply.
    pub useful_tiles: Vec<(Tile, usize)>,
}

/// The three numbers by which discards are ranked.
pub struct Metrics {
    pub distance: int,
    pub kinds: nat,
    pub copies: nat,
}

/// The supplies of a waiting set, added up.
pub open spec fn supply_total(waits: Seq<(Tile, nat)>) -> nat
    decreases waits.len(),
{
    if waits.len() == 0 {
        0
    } else {
        supply_total(waits.drop_last()) + waits.last().1
    }
}

/// A number of copies as the machine counts it: at most `usize::MAX`.
pub open spec fn clipped(copies: nat) -> nat {
    if copies > usize::MAX {
        usize::MAX as nat
    } else {
        copies
    }
}

/// `first` ranks before `second`: a smaller distance, or with the same
/// distance more tiles waited for, or with as many of them more copies.
pub open spec fn better(first: Metrics, second: Metrics) -> bool {
    first.distance < second.distance || (first.distance == second.distance && (first.kinds
        > second.kinds || (first.kinds == second.kinds && first.copies > second.copies)))
}

impl HandView {
    /// The hand holds the tile, concealed or as the drawn tile.
    pub open spec fn holds(self, tile: Tile) -> bool {
        tile.wf() && (self.counts[tile_id(tile)] > 0 || self.drawn == Some(tile))
    }

    /// The hand after discarding the tile: without the drawn tile if that
    /// is the tile, else with one concealed copy less.
    pub open spec fn discard(self, tile: Tile) -> HandView {
        if self.drawn == Some(tile) {
            self.with_drawn(None)
        } else {
            self.without_tile(tile)
        }
    }

    /// The numbers by which the hand is ranked.
    pub open spec fn metrics(self, remaining: Option<Seq<nat>>) -> Metrics {
        Metrics {
            distance: self.distance(),
            kinds: self.waits(remaining).len(),
            copies: clipped(supply_total(self.waits(remaining))),
        }
    }

    /// The tile is the best discard: the hand holds it, no tile held
    /// leaves a hand that ranks before the one it leaves, and every tile
    /// held with a smaller id leaves a hand that ranks after.
    pub open spec fn is_best_discard(self, remaining: Option<Seq<nat>>, tile: Tile) -> bool {
        &&& self.holds(tile)
        &&& forall|id: int|
            0 <= id < 43 && self.holds(#[trigger] tile_at(id)) ==> !better(
                self.discard(tile_at(id)).metrics(remaining),
                self.discard(tile).metrics(remaining),
            )
        &&& forall|id: int|
            0 <= id < tile_id(tile) && self.holds(#[trigger] tile_at(id)) ==> better(
                self.discard(tile).metrics(remaining),
                self.discard(tile_at(id)).metrics(remaining),
            )
    }
}

impl EfficiencyInfo {
    /// The record says what discarding the tile from the hand leaves.
    pub open spec fn describes(
        self,
        view: HandView,
        tile: Tile,
        remaining: Option<Seq<nat>>,
    ) -> bool {
        &&& self.shanten == view.discard(tile).distance()
        &&& self.shanten_change == view.discard(tile).distance() - view.distance()
        &&& wait_views(self.useful_tiles@) == view.discard(tile).waits(remaining)
        &&& self.useful_tile_kinds == view.discard(tile).metrics(remaining).kinds
        &&& self.useful_tile_count == view.discard(tile).metrics(remaining).copies
    }
}

/// The supplies of a list of waits, added up; `usize::MAX` if the sum
/// is larger.
fn count_copies(waits: &Vec<(Tile, usize)>) -> (copies: usize)
    ensures
        copies == clipped(supply_total(wait_views(waits@))),
{
    let mut copies: usize = 0;
    let mut i: usize = 0;
    while i < waits.len()
        invariant
            i <= waits@.len(),
            copies == clipped(supply_total(wait_views(waits@).take(i as int))),
        decreases waits@.len() - i,
    {
        assert(wait_views(waits@).take(i + 1).drop_last() == wait_views(waits@).take(i as int));
        let supply: usize = waits[i].1;
        copies = if supply > usize::MAX - copies {
            usize::MAX
        } else {
            copies + supply
        };
        i = i + 1;
    }
    assert(wait_views(waits@).take(i as int) == wait_views(waits@));
    copies
}

/// What discarding the tile leaves: nothing if the hand does not hold
/// the tile, else the record that `describes` the discard.
pub fn calculate_discard_efficiency(
    hand: &Hand,
    tile_to_discard: &Tile,
    remaining_tiles: Option<&Vec<usize>>,
) -> (info: Option<EfficiencyInfo>)
    requires
        hand.wf(),
    ensures
        match info {
            Some(record) => hand@.holds(*tile_to_discard) && record.describes(
                hand@,
                *tile_to_discard,
                table_view(remaining_tiles),
            ),
            None => !hand@.holds(*tile_to_discard),
        },
{
    let mut rest: Hand = hand.duplicate();
    if hand.is_drawn_tile(tile_to_discard) {
        rest.set_drawn_tile(None);
    } else if !rest.remove_tile(tile_to_discard) {
        return None;
    }
    let before: i8 = ShantenCalculator::calculate(hand);
    let found: HandAnalysisResult = analyze_hand(&rest, remaining_tiles);
    let copies: usize = count_copies(&found.waits);
    let kinds: usize = found.waits.len();
    Some(
        EfficiencyInfo {
            shanten: found.shanten,
            shanten_change: found.shanten - before,
            useful_tile_kinds: kinds,
            useful_tile_count: copies,
            useful_tiles: found.waits,
        },
    )
}

/// Whether the first record ranks before the second.
fn ranks_before(first: &EfficiencyInfo, second: &EfficiencyInfo) -> (before: bool)
    ensures
        before == better(
            Metrics {
                distance: first.shanten as int,
                kinds: first.useful_tile_kinds as nat,
                copies: first.useful_tile_count as nat,
            },
            Metrics {
                distance: second.shanten as int,
                kinds: second.useful_tile_kinds as nat,
                copies: second.useful_tile_count as nat,
            },
        ),
{
    if first.shanten < second.shanten {
        true
    } else if first.shanten == second.shanten {
        if first.useful_tile_kinds > second.useful_tile_kinds {
            true
        } else if first.useful_tile_kinds == second.useful_tile_kinds {
            first.useful_tile_count > second.useful_tile_count
        } else {
            false
        }
    } else {
        false
    }
}

/// The best discard with what it leaves: nothing if the hand holds no
/// tile, else the tile that `is_best_discard` and its record.
pub fn find_best_discard(hand: &Hand, remaining_tiles: Option<&Vec<usize>>) -> (best: Option<
    (Tile, EfficiencyInfo),
>)
    requires
        hand.wf(),
    ensures
        match best {
            Some((tile, record)) => hand@.is_best_discard(table_view(remaining_tiles), tile)
                && record.describes(hand@, tile, table_view(remaining_tiles)),
            None => forall|id: int| 0 <= id < 43 ==> !hand@.holds(#[trigger] tile_at(id)),
        },
{
    let ghost remaining = table_view(remaining_tiles);
    let mut best: Option<(Tile, EfficiencyInfo)> = None;
    let mut id: usize = 0;
    while id < 43
        invariant
            id <= 43,
            hand.wf(),
            remaining == table_view(remaining_tiles),
            match best {
                Some((tile, record)) => {
                    &&& hand@.holds(tile)
                    &&& tile_id(tile) < id
                    &&& record.describes(hand@, tile, remaining)
                    &&& forall|k: int|
                        0 <= k < id && hand@.holds(#[trigger] tile_at(k)) ==> !better(
                            hand@.discard(tile_at(k)).metrics(remaining),
                            hand@.discard(tile).metrics(remaining),
                        )
                    &&& forall|k: int|
                        0 <= k < tile_id(tile) && hand@.holds(#[trigger] tile_at(k)) ==> better(
                            hand@.discard(tile).metrics(remaining),
                            hand@.discard(tile_at(k)).metrics(remaining),
                        )
                },
                None => forall|k: int| 0 <= k < id ==> !hand@.holds(#[trigger] tile_at(k)),
            },
        decreases 43 - id,
    {
        let tile: Tile = match Tile::from_id(id as u8) {
            Some(tile) => tile,
            None => Tile::Joker,
        };
        let found: Option<EfficiencyInfo> = calculate_discard_efficiency(
            hand,
            &tile,
            remaining_tiles,
        );
        match found {
            Some(record) => {
                let replace: bool = match &best {
                    Some((_, current)) => ranks_before(&record, current),
                    None => true,
                };
                if replace {
                    best = Some((tile, record));
                }
            },
            None => {},
        }
        id = id + 1;
    }
    best
}

/// When exactly one tile held can be discarded without moving away from
/// a hand that waits, the best discard is that tile, and what it leaves
/// is at distance 0.
pub proof fn lemma_best_discard_keeps_wait(
    view: HandView,
    remaining: Option<Seq<nat>>,
    best: Tile,
    keeper: Tile,
)
    requires
        view.wf(),
        view.is_best_discard(remaining, best),
        view.holds(keeper),
        view.discard(keeper).distance() == 0,
        forall|id: int|
            0 <= id < 43 && view.holds(#[trigger] tile_at(id)) && tile_at(id) != keeper
                ==> view.discard(tile_at(id)).distance() > 0,
    ensures
        best == keeper,
        view.discard(best).distance() == 0,
{
    lemma_id_round_trip(keeper);
    lemma_id_round_trip(best);
}

} // verus!
