//! The actions that a hand allows.

use vstd::prelude::*;
use crate::action::{Action, KanType};
use crate::hand::analysis::{distance, one_more, ShantenCalculator};
use crate::hand::representation::{counters, expand, Hand, HandView};

use crate::rules::claims::{quad_claim_of, run_claims_of, triple_claim_of};
use crate::rules::common::win_patterns::{is_complete, wins, PairsPolicy};
use crate::tile::tile::tile_id;
use crate::tile::Tile;

verus! {

impl HandView {
    /// The hand may declare ready with the discard of the tile: it holds
    /// the tile, has no meld, and the discard leaves it one tile from
    /// completion.
    pub open spec fn can_declare_with(self, tile: Tile) -> bool {
        self.holds(tile) && self.melds.len() == 0 && self.discard(tile).distance() == 0
    }

    /// The hand would be complete with one more copy of the tile.
    pub open spec fn completes_with(self, tile: Tile) -> bool {
        tile.wf() && self.shape()[tile_id(tile)] < usize::MAX && wins(
            one_more(self.shape(), tile_id(tile)),
            self.melds.len(),
            PairsPolicy::Distinct,
        )
    }

    /// The run of the three tiles is one that the hand can claim one of
    /// them for.
    pub open spec fn can_claim_run(self, first: Tile, second: Tile, third: Tile) -> bool {
        self.run_claims(first).contains((first, second, third)) || self.run_claims(second).contains(
            (first, second, third),
        ) || self.run_claims(third).contains((first, second, third))
    }

    /// What the hand alone says about an action: a discard needs the
    /// tile; a declaration of readiness a discard that leaves the hand
    /// waiting; a win a complete hand; a claim the tiles it is made
    /// with. A pass is always allowed.
    pub open spec fn allows(self, action: Action) -> bool {
        match action {
            Action::Discard(tile) => self.holds(tile),
            Action::Riichi(tile) => self.can_declare_with(tile),
            Action::Tsumo => self.is_complete(PairsPolicy::Distinct),
            Action::Ron(tile) => self.completes_with(tile),
            Action::Chi(first, second, third) => self.can_claim_run(first, second, third),
            Action::Pon(tile) => self.can_claim_triple(tile),
            Action::Kan(KanType::Open(tile)) => self.can_claim_quad(tile, true),
            Action::Kan(KanType::Closed(tile)) => tile.wf() && self.shape()[tile_id(tile)] >= 4,
            Action::Kan(KanType::Added(tile)) => self.can_claim_quad(tile, false),
            Action::Pass => true,
        }
    }

    /// The discards open to the hand: the drawn tile first, then each
    /// concealed tile that is not the drawn tile, in the order of the
    /// ids, as often as it is held.
    pub open spec fn discards(self) -> Seq<Action> {
        (match self.drawn {
            Some(tile) => seq![Action::Discard(tile)],
            None => seq![],
        }) + discards_of(expand(self.counts, 43), self.drawn)
    }
}

/// The discards of the tiles that are not the tile set apart, in their
/// order.
pub open spec fn discards_of(tiles: Seq<Tile>, apart: Option<Tile>) -> Seq<Action>
    decreases tiles.len(),
{
    if tiles.len() == 0 {
        seq![]
    } else {
        discards_of(tiles.drop_last(), apart) + if apart == Some(tiles.last()) {
            seq![]
        } else {
            seq![Action::Discard(tiles.last())]
        }
    }
}

/// Whether the run is among the runs.
fn has_run(runs: &Vec<(Tile, Tile, Tile)>, run: (Tile, Tile, Tile)) -> (found: bool)
    ensures
        found == runs@.contains(run),
{
    let mut i: usize = 0;
    while i < runs.len()
        invariant
            i <= runs@.len(),
            forall|k: int| 0 <= k < i ==> runs@[k] != run,
        decreases runs@.len() - i,
    {
        if runs[i].0 == run.0 && runs[i].1 == run.1 && runs[i].2 == run.2 {
            return true;
        }
        i = i + 1;
    }
    false
}

/// Whether the hand would be complete with one more copy of the tile.
fn completes_with(hand: &Hand, tile: Tile) -> (complete: bool)
    requires
        hand.wf(),
    ensures
        complete == hand@.completes_with(tile),
{
    if !tile.is_valid() {
        return false;
    }
    let mut counts = hand.shape_counts();
    let id: usize = tile.to_id() as usize;
    let held: usize = counts[id];
    if held == usize::MAX {
        return false;
    }
    counts.set(id, held + 1);
    assert(counters(counts@) =~= one_more(hand@.shape(), id as int));
    let melds: usize = hand.get_melds().len();
    crate::rules::common::win_patterns::standard_win_of(&mut counts, melds)
        || crate::rules::common::win_patterns::pairs_win_of(
        &counts,
        melds,
        PairsPolicy::Distinct,
    ) || crate::rules::common::win_patterns::singles_win_of(&counts, melds)
}

/// Whether the hand allows the action, as far as the hand alone says.
pub fn can_perform_action(hand: &Hand, action: &Action) -> (allowed: bool)
    requires
        hand.wf(),
    ensures
        allowed == hand@.allows(*action),
{
    match action {
        Action::Discard(tile) => hand.holds_tile(tile),
        Action::Riichi(tile) => {
            if !hand.holds_tile(tile) || hand.get_melds().len() != 0 {
                return false;
            }
            let mut rest: Hand = hand.duplicate();
            if hand.is_drawn_tile(tile) {
                rest.set_drawn_tile(None);
            } else {
                let _ = rest.remove_tile(tile);
            }
            ShantenCalculator::calculate(&rest) == 0
        },
        Action::Tsumo => is_complete(hand, PairsPolicy::Distinct),
        Action::Ron(tile) => completes_with(hand, *tile),
        Action::Chi(first, second, third) => {
            let run = (*first, *second, *third);
            has_run(&run_claims_of(hand, *first), run) || has_run(
                &run_claims_of(hand, *second),
                run,
            ) || has_run(&run_claims_of(hand, *third), run)
        },
        Action::Pon(tile) => triple_claim_of(hand, *tile),
        Action::Kan(KanType::Open(tile)) => quad_claim_of(hand, *tile, true),
        Action::Kan(KanType::Closed(tile)) => {
            if !tile.is_valid() {
                return false;
            }
            let counts = hand.shape_counts();
            counts[tile.to_id() as usize] >= 4
        },
        Action::Kan(KanType::Added(tile)) => quad_claim_of(hand, *tile, false),
        Action::Pass => true,
    }
}

/// The discards open to the hand.
pub fn get_possible_actions(hand: &Hand) -> (actions: Vec<Action>)
    requires
        hand.wf(),
    ensures
        actions@ == hand@.discards(),
{
    let mut actions: Vec<Action> = Vec::new();
    let drawn_tile_opt: Option<Tile> = hand.get_drawn_tile();
    match drawn_tile_opt {
        Some(drawn) => {
            actions.push(Action::Discard(drawn));
        },
        None => {},
    }
    let ghost head = actions@;
    let closed: Vec<Tile> = hand.get_closed_tiles();
    let mut i: usize = 0;
    while i < closed.len()
        invariant
            i <= closed@.len(),
            actions@ == head + discards_of(closed@.take(i as int), drawn_tile_opt),
        decreases closed@.len() - i,
    {
        assert(closed@.take(i + 1).drop_last() == closed@.take(i as int));
        let same: bool = match drawn_tile_opt {
            Some(drawn) => drawn == closed[i],
            None => false,
        };
        if !same {
            actions.push(Action::Discard(closed[i]));
        }
        i = i + 1;
    }
    assert(closed@.take(i as int) == closed@);
    actions
}

} // verus!
