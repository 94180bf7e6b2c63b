//! The shapes of a complete hand, decided by taking the hand apart in
//! full: four groups and a pair, seven pairs, or the thirteen singles.

use vstd::prelude::*;
use crate::hand::analysis::{
    distance, kinds_held, kinds_with, lemma_distance_range, lemma_standard_distance, meld_groups,
    only_orphans, only_orphans_held, orphan_kinds, orphan_kinds_held, standard_distance,
};
use crate::hand::decompose::{
    block_ok, block_uses, fits_from, gain, groups, heads, lemma_gain_range,
    lemma_tally_nonnegative, lemma_tally_push, lemma_tally_remove, measure, partials, take_block,
    tally, Block, Shape,
};
use crate::hand::representation::{counters, Hand, HandView};

verus! {

/// Whether four copies of one tile may stand for two of the seven pairs.
#[derive(Debug, Clone, Copy, PartialEq, Eq, Structural)]
pub enum PairsPolicy {
    /// The seven pairs are of seven different tiles.
    Distinct,
    /// Four copies of a tile count as two pairs.
    AllowQuads,
}

/// The arrangement consists of `need` complete groups and uses each of
/// the counted tiles exactly.
pub open spec fn is_grouping(blocks: Seq<Block>, counts: Seq<nat>, need: int) -> bool {
    &&& blocks.len() == need
    &&& forall|j: int|
        0 <= j < blocks.len() ==> block_ok(#[trigger] blocks[j]) && (blocks[j].shape
            == Shape::Triple || blocks[j].shape == Shape::Run)
    &&& forall|id: int| 0 <= id < 34 ==> #[trigger] tally(blocks, id) == counts[id]
}

/// The counted tiles can be arranged into exactly `need` complete groups.
pub open spec fn can_group(counts: Seq<nat>, need: int) -> bool {
    exists|blocks: Seq<Block>| #[trigger] is_grouping(blocks, counts, need)
}

/// The arrangement consists of complete groups and one head, uses each
/// of the counted tiles exactly, and makes four groups with the melds.
pub open spec fn is_winning_arrangement(blocks: Seq<Block>, counts: Seq<nat>, melds: nat) -> bool {
    &&& forall|j: int|
        0 <= j < blocks.len() ==> block_ok(#[trigger] blocks[j]) && (blocks[j].shape
            == Shape::Triple || blocks[j].shape == Shape::Run || blocks[j].shape == Shape::Head)
    &&& forall|id: int| 0 <= id < 34 ==> #[trigger] tally(blocks, id) == counts[id]
    &&& groups(blocks) + melds == 4
    &&& heads(blocks) == 1
}

/// The counts hold no bonus tile and no wildcard.
pub open spec fn no_extras(counts: Seq<nat>) -> bool {
    forall|id: int| 34 <= id < 43 ==> #[trigger] counts[id] == 0
}

/// The counted tiles and the melds make four groups and a pair.
pub open spec fn standard_win(counts: Seq<nat>, melds: nat) -> bool {
    no_extras(counts) && exists|blocks: Seq<Block>| #[trigger]
        is_winning_arrangement(blocks, counts, melds)
}

/// The counted tiles are seven pairs, with no meld beside them. Under
/// `Distinct` the pairs are of seven tiles; under `AllowQuads` four
/// copies of a tile are two of the pairs.
pub open spec fn pairs_win(counts: Seq<nat>, melds: nat, policy: PairsPolicy) -> bool {
    &&& melds == 0
    &&& no_extras(counts)
    &&& kinds_with(counts, 34, 1) == kinds_with(counts, 34, 2)
    &&& kinds_with(counts, 34, 3) == kinds_with(counts, 34, 4)
    &&& kinds_with(counts, 34, 5) == 0
    &&& kinds_with(counts, 34, 2) + kinds_with(counts, 34, 4) == 7
    &&& policy == PairsPolicy::Distinct ==> kinds_with(counts, 34, 4) == 0
}

/// The counted tiles are the thirteen singles with one of them doubled,
/// with no meld beside them.
pub open spec fn singles_win(counts: Seq<nat>, melds: nat) -> bool {
    &&& melds == 0
    &&& only_orphans(counts)
    &&& orphan_kinds(counts, 34, 1) == 13
    &&& orphan_kinds(counts, 34, 2) == 1
    &&& orphan_kinds(counts, 34, 3) == 0
}

/// The counted tiles and the melds are a complete hand.
pub open spec fn wins(counts: Seq<nat>, melds: nat, policy: PairsPolicy) -> bool {
    standard_win(counts, melds) || pairs_win(counts, melds, policy) || singles_win(counts, melds)
}

impl HandView {
    /// The hand is complete under the policy.
    pub open spec fn is_complete(self, policy: PairsPolicy) -> bool {
        wins(self.shape(), self.melds.len(), policy)
    }
}

/// A quantity that an arrangement has at all, one of its blocks has.
pub proof fn lemma_tally_positive(blocks: Seq<Block>, slot: int)
    requires
        tally(blocks, slot) > 0,
    ensures
        exists|j: int| 0 <= j < blocks.len() && measure(#[trigger] blocks[j], slot) > 0,
    decreases blocks.len(),
{
    if measure(blocks.last(), slot) <= 0 {
        lemma_tally_positive(blocks.drop_last(), slot);
        let j = choose|j: int|
            0 <= j < blocks.drop_last().len() && measure(#[trigger] blocks.drop_last()[j], slot)
                > 0;
        assert(blocks[j] == blocks.drop_last()[j]);
    }
}

/// An arrangement of complete groups has as many groups as blocks, and
/// no head.
pub proof fn lemma_grouping_counts(blocks: Seq<Block>)
    requires
        forall|j: int|
            0 <= j < blocks.len() ==> (#[trigger] blocks[j]).shape == Shape::Triple
                || blocks[j].shape == Shape::Run,
    ensures
        groups(blocks) == blocks.len(),
        heads(blocks) == 0,
        tally(blocks, 35) == 0,
    decreases blocks.len(),
{
    if blocks.len() > 0 {
        lemma_grouping_counts(blocks.drop_last());
    }
}

/// In a grouping, the lowest tile held is the lowest tile of one of the
/// groups; without that group the rest is a grouping of what is left.
pub proof fn lemma_grouping_split(blocks: Seq<Block>, counts: Seq<nat>, need: int, lowest: int)
    requires
        counts.len() == 43,
        is_grouping(blocks, counts, need),
        0 <= lowest < 34,
        counts[lowest] > 0,
        forall|id: int| 0 <= id < lowest ==> #[trigger] counts[id] == 0,
    ensures
        need >= 1,
        exists|j: int|
            0 <= j < blocks.len() && (#[trigger] blocks[j]).low == lowest && forall|id: int|
                0 <= id < 34 ==> block_uses(blocks[j], id) <= #[trigger] counts[id],
        forall|j: int|
            0 <= j < blocks.len() && (#[trigger] blocks[j]).low == lowest ==> is_grouping(
                blocks.remove(j),
                take_block(counts, blocks[j]),
                need - 1,
            ),
{
    lemma_tally_positive(blocks, lowest);
    let j = choose|j: int| 0 <= j < blocks.len() && measure(#[trigger] blocks[j], lowest) > 0;
    let block = blocks[j];
    lemma_tally_remove(blocks, j, block.low);
    lemma_tally_nonnegative(blocks.remove(j), block.low);
    assert(block.low == lowest);
    assert forall|id: int| 0 <= id < 34 implies block_uses(block, id) <= #[trigger] counts[id] by {
        lemma_tally_remove(blocks, j, id);
        lemma_tally_nonnegative(blocks.remove(j), id);
    }
    assert forall|k: int| 0 <= k < blocks.len() && (#[trigger] blocks[k]).low
        == lowest implies is_grouping(
        blocks.remove(k),
        take_block(counts, blocks[k]),
        need - 1,
    ) by {
        let rest = blocks.remove(k);
        let left = take_block(counts, blocks[k]);
        assert forall|id: int| 0 <= id < 34 implies #[trigger] tally(rest, id) == left[id] by {
            lemma_tally_remove(blocks, k, id);
            lemma_tally_nonnegative(rest, id);
            assert(tally(blocks, id) == counts[id]);
        }
    }
}

/// A group whose tiles are held, put beside a grouping of what it
/// leaves, makes a grouping.
pub proof fn lemma_grouping_join(rest: Seq<Block>, block: Block, counts: Seq<nat>, need: int)
    requires
        counts.len() == 43,
        block_ok(block),
        block.shape == Shape::Triple || block.shape == Shape::Run,
        forall|id: int| 0 <= id < 34 ==> block_uses(block, id) <= #[trigger] counts[id],
        is_grouping(rest, take_block(counts, block), need - 1),
    ensures
        is_grouping(rest.push(block), counts, need),
{
    let blocks = rest.push(block);
    let left = take_block(counts, block);
    assert forall|id: int| 0 <= id < 34 implies #[trigger] tally(blocks, id) == counts[id] by {
        lemma_tally_push(rest, block, id);
        assert(tally(rest, id) == left[id]);
    }
    assert forall|j: int| 0 <= j < blocks.len() implies block_ok(#[trigger] blocks[j]) && (
    blocks[j].shape == Shape::Triple || blocks[j].shape == Shape::Run) by {
        if j < rest.len() {
            assert(blocks[j] == rest[j]);
        }
    }
}

/// Whether the counted tiles can be arranged into exactly `need`
/// complete groups. The lowest tile held is in a triple or starts a run:
/// both are tried. The counts are the same again at the end.
pub fn can_form_melds(counts: &mut Vec<usize>, need: u8) -> (possible: bool)
    requires
        old(counts)@.len() == 43,
    ensures
        final(counts)@ == old(counts)@,
        possible == can_group(counters(old(counts)@), need as int),
    decreases need,
{
    let ghost c = counters(counts@);
    let mut lowest: usize = 0;
    while lowest < 34 && counts[lowest] == 0
        invariant
            lowest <= 34,
            counts@.len() == 43,
            counts@ == old(counts)@,
            c == counters(counts@),
            forall|id: int| 0 <= id < lowest ==> #[trigger] c[id] == 0,
        decreases 34 - lowest,
    {
        lowest = lowest + 1;
    }
    if lowest >= 34 {
        proof {
            if need == 0 {
                assert(is_grouping(Seq::<Block>::empty(), c, 0));
            } else {
                assert forall|blocks: Seq<Block>| !#[trigger] is_grouping(blocks, c, need as int) by {
                    if is_grouping(blocks, c, need as int) {
                        let block = blocks[0];
                        lemma_tally_remove(blocks, 0, block.low);
                        lemma_tally_nonnegative(blocks.remove(0), block.low);
                    }
                }
            }
        }
        return need == 0;
    }
    if need == 0 {
        proof {
            assert forall|blocks: Seq<Block>| !#[trigger] is_grouping(blocks, c, 0) by {
                if is_grouping(blocks, c, 0) {
                    assert(tally(blocks, lowest as int) == c[lowest as int]);
                }
            }
        }
        return false;
    }
    let n: usize = counts[lowest];
    let ghost triple = Block { shape: Shape::Triple, low: lowest as int };
    let ghost run = Block { shape: Shape::Run, low: lowest as int };
    let mut as_triple: bool = false;
    if n >= 3 {
        counts.set(lowest, n - 3);
        assert(counters(counts@) =~= take_block(c, triple));
        as_triple = can_form_melds(counts, need - 1);
        counts.set(lowest, n);
        if as_triple {
            proof {
                let rest = choose|rest: Seq<Block>| #[trigger]
                    is_grouping(rest, take_block(c, triple), need - 1);
                lemma_grouping_join(rest, triple, c, need as int);
            }
            return true;
        }
    }
    let mut as_run: bool = false;
    if lowest < 27 && lowest % 9 <= 6 {
        let n1: usize = counts[lowest + 1];
        let n2: usize = counts[lowest + 2];
        if n1 >= 1 && n2 >= 1 {
            counts.set(lowest, n - 1);
            counts.set(lowest + 1, n1 - 1);
            counts.set(lowest + 2, n2 - 1);
            assert(counters(counts@) =~= take_block(c, run));
            as_run = can_form_melds(counts, need - 1);
            counts.set(lowest, n);
            counts.set(lowest + 1, n1);
            counts.set(lowest + 2, n2);
            if as_run {
                proof {
                    let rest = choose|rest: Seq<Block>| #[trigger]
                        is_grouping(rest, take_block(c, run), need - 1);
                    lemma_grouping_join(rest, run, c, need as int);
                }
                return true;
            }
        }
    }
    proof {
        assert forall|blocks: Seq<Block>| !#[trigger] is_grouping(blocks, c, need as int) by {
            if is_grouping(blocks, c, need as int) {
                lemma_grouping_split(blocks, c, need as int, lowest as int);
                let j = choose|j: int|
                    0 <= j < blocks.len() && (#[trigger] blocks[j]).low == lowest && forall|
                        id: int,
                    |
                        0 <= id < 34 ==> block_uses(blocks[j], id) <= #[trigger] c[id];
                let block = blocks[j];
                assert(is_grouping(blocks.remove(j), take_block(c, block), need - 1));
                if block.shape != Shape::Triple {
                    assert(block_uses(block, lowest + 1) <= c[lowest + 1]);
                    assert(block_uses(block, lowest + 2) <= c[lowest + 2]);
                }
            }
        }
    }
    false
}

/// An arrangement without partial groups has none.
pub proof fn lemma_no_partials(blocks: Seq<Block>)
    requires
        forall|j: int|
            0 <= j < blocks.len() ==> (#[trigger] blocks[j]).shape == Shape::Triple
                || blocks[j].shape == Shape::Run || blocks[j].shape == Shape::Head,
    ensures
        partials(blocks) == 0,
    decreases blocks.len(),
{
    if blocks.len() > 0 {
        lemma_no_partials(blocks.drop_last());
    }
}

/// Tiles that make four groups and a pair with the melds are complete
/// under either policy, and their distance to completion is -1.
pub proof fn lemma_standard_win_distance(counts: Seq<nat>, melds: nat, policy: PairsPolicy)
    requires
        counts.len() == 43,
        standard_win(counts, melds),
    ensures
        standard_distance(counts, melds) == -1,
        distance(counts, melds) == -1,
        wins(counts, melds, policy),
{
    let blocks = choose|blocks: Seq<Block>| #[trigger]
        is_winning_arrangement(blocks, counts, melds);
    lemma_no_partials(blocks);
    lemma_tally_nonnegative(blocks, 34);
    let room = 4 - meld_groups(melds);
    assert(fits_from(blocks, counts, 0, room, 1));
    assert forall|other: Seq<Block>| #[trigger] fits_from(other, counts, 0, room, 1) implies gain(
        other,
    ) <= 2 * room + 1 by {
        lemma_gain_range(other, counts, 0, room, 1);
    }
    lemma_standard_distance(counts, melds);
    lemma_distance_range(counts, melds);
}

/// Tiles that are complete in any of the three families, the seven pairs
/// of seven tiles, are at distance -1.
pub proof fn lemma_win_distance(counts: Seq<nat>, melds: nat)
    requires
        counts.len() == 43,
        wins(counts, melds, PairsPolicy::Distinct),
    ensures
        distance(counts, melds) == -1,
{
    lemma_distance_range(counts, melds);
    if standard_win(counts, melds) {
        lemma_standard_win_distance(counts, melds, PairsPolicy::Distinct);
    }
}

/// A hand that makes four groups and a pair with its melds is complete
/// under either policy, and its distance to completion is -1.
pub proof fn lemma_complete_hand(view: HandView, policy: PairsPolicy)
    requires
        view.wf(),
        standard_win(view.shape(), view.melds.len()),
    ensures
        view.distance() == -1,
        view.is_complete(policy),
{
    lemma_standard_win_distance(view.shape(), view.melds.len(), policy);
}

/// Whether the counts hold no bonus tile and no wildcard.
pub fn without_extras(counts: &Vec<usize>) -> (none: bool)
    requires
        counts@.len() == 43,
    ensures
        none == no_extras(counters(counts@)),
{
    let mut id: usize = 34;
    while id < 43
        invariant
            34 <= id <= 43,
            counts@.len() == 43,
            forall|k: int| 34 <= k < id ==> #[trigger] counters(counts@)[k] == 0,
        decreases 43 - id,
    {
        if counts[id] != 0 {
            assert(counters(counts@)[id as int] != 0);
            return false;
        }
        id = id + 1;
    }
    true
}

/// Whether the counted tiles and the melds make four groups and a pair:
/// each tile held twice is tried as the pair.
pub fn standard_win_of(counts: &mut Vec<usize>, melds: usize) -> (complete: bool)
    requires
        old(counts)@.len() == 43,
    ensures
        final(counts)@ == old(counts)@,
        complete == standard_win(counters(old(counts)@), melds as nat),
{
    let ghost c = counters(counts@);
    if melds > 4 || !without_extras(counts) {
        proof {
            if melds > 4 {
                assert forall|blocks: Seq<Block>| !#[trigger] is_winning_arrangement(
                    blocks,
                    c,
                    melds as nat,
                ) by {
                    lemma_tally_nonnegative(blocks, 34);
                }
            }
        }
        return false;
    }
    let need: u8 = 4 - melds as u8;
    let mut id: usize = 0;
    while id < 34
        invariant
            id <= 34,
            counts@.len() == 43,
            counts@ == old(counts)@,
            c == counters(counts@),
            need == 4 - melds,
            melds <= 4,
            no_extras(c),
            forall|k: int|
                0 <= k < id ==> !(c[k] >= 2 && can_group(
                    #[trigger] take_block(c, Block { shape: Shape::Head, low: k }),
                    need as int,
                )),
        decreases 34 - id,
    {
        let n: usize = counts[id];
        let ghost head = Block { shape: Shape::Head, low: id as int };
        if n >= 2 {
            counts.set(id, n - 2);
            assert(counters(counts@) =~= take_block(c, head));
            let grouped: bool = can_form_melds(counts, need);
            counts.set(id, n);
            if grouped {
                proof {
                    let rest = choose|rest: Seq<Block>| #[trigger]
                        is_grouping(rest, take_block(c, head), need as int);
                    lemma_winning_join(rest, head, c, melds as nat);
                }
                return true;
            }
        }
        id = id + 1;
    }
    proof {
        assert forall|blocks: Seq<Block>| !#[trigger] is_winning_arrangement(
            blocks,
            c,
            melds as nat,
        ) by {
            if is_winning_arrangement(blocks, c, melds as nat) {
                lemma_winning_split(blocks, c, melds as nat);
            }
        }
    }
    false
}

/// A pair that is held, put beside a grouping of what it leaves, makes
/// a winning arrangement.
pub proof fn lemma_winning_join(rest: Seq<Block>, head: Block, counts: Seq<nat>, melds: nat)
    requires
        counts.len() == 43,
        melds <= 4,
        head.shape == Shape::Head,
        0 <= head.low < 34,
        counts[head.low] >= 2,
        is_grouping(rest, take_block(counts, head), 4 - melds),
    ensures
        is_winning_arrangement(rest.push(head), counts, melds),
{
    let blocks = rest.push(head);
    lemma_grouping_counts(rest);
    lemma_tally_push(rest, head, 34);
    lemma_tally_push(rest, head, 36);
    assert forall|id: int| 0 <= id < 34 implies #[trigger] tally(blocks, id) == counts[id] by {
        lemma_tally_push(rest, head, id);
    }
}

/// A winning arrangement has a pair that is held, and what the pair
/// leaves can be grouped.
pub proof fn lemma_winning_split(blocks: Seq<Block>, counts: Seq<nat>, melds: nat)
    requires
        counts.len() == 43,
        is_winning_arrangement(blocks, counts, melds),
    ensures
        melds <= 4,
        exists|k: int|
            0 <= k < 34 && counts[k] >= 2 && can_group(
                #[trigger] take_block(counts, Block { shape: Shape::Head, low: k }),
                4 - melds,
            ),
{
    lemma_tally_nonnegative(blocks, 34);
    lemma_tally_positive(blocks, 36);
    let j = choose|j: int| 0 <= j < blocks.len() && measure(#[trigger] blocks[j], 36) > 0;
    let head = blocks[j];
    let rest = blocks.remove(j);
    let left = take_block(counts, head);
    lemma_tally_remove(blocks, j, 34);
    lemma_tally_remove(blocks, j, 36);
    assert forall|id: int| 0 <= id < 34 implies #[trigger] tally(rest, id) == left[id]
        && block_uses(head, id) <= counts[id] by {
        lemma_tally_remove(blocks, j, id);
        lemma_tally_nonnegative(rest, id);
    }
    assert(tally(rest, head.low) == left[head.low]);
    assert forall|i: int| 0 <= i < rest.len() implies block_ok(#[trigger] rest[i]) && (
    rest[i].shape == Shape::Triple || rest[i].shape == Shape::Run) by {
        let kept = if i < j {
            blocks[i]
        } else {
            blocks[i + 1]
        };
        if kept.shape == Shape::Head {
            lemma_heads_at_least(rest, i);
        }
    }
    lemma_grouping_counts(rest);
    assert(is_grouping(rest, left, 4 - melds));
}

/// An arrangement has at least as many heads as one of its blocks is one.
pub proof fn lemma_heads_at_least(blocks: Seq<Block>, index: int)
    requires
        0 <= index < blocks.len(),
    ensures
        heads(blocks) >= measure(blocks[index], 36),
{
    lemma_tally_remove(blocks, index, 36);
    lemma_tally_nonnegative(blocks.remove(index), 36);
}

/// Whether the counted tiles are seven pairs under the policy.
pub fn pairs_win_of(counts: &Vec<usize>, melds: usize, policy: PairsPolicy) -> (complete: bool)
    requires
        counts@.len() == 43,
    ensures
        complete == pairs_win(counters(counts@), melds as nat, policy),
{
    if melds != 0 || !without_extras(counts) {
        return false;
    }
    let held: usize = kinds_held(counts, 1);
    let twice: usize = kinds_held(counts, 2);
    let thrice: usize = kinds_held(counts, 3);
    let four: usize = kinds_held(counts, 4);
    let more: usize = kinds_held(counts, 5);
    let distinct: bool = match policy {
        PairsPolicy::Distinct => four == 0,
        PairsPolicy::AllowQuads => true,
    };
    held == twice && thrice == four && more == 0 && twice + four == 7 && distinct
}

/// Whether the counted tiles are the thirteen singles with one doubled.
pub fn singles_win_of(counts: &Vec<usize>, melds: usize) -> (complete: bool)
    requires
        counts@.len() == 43,
    ensures
        complete == singles_win(counters(counts@), melds as nat),
{
    melds == 0 && only_orphans_held(counts) && orphan_kinds_held(counts, 1) == 13
        && orphan_kinds_held(counts, 2) == 1 && orphan_kinds_held(counts, 3) == 0
}

/// Whether the hand is four groups and a pair, declared melds included.
pub fn is_standard_win_shape(hand: &Hand) -> (complete: bool)
    requires
        hand.wf(),
    ensures
        complete == standard_win(hand@.shape(), hand@.melds.len()),
{
    let mut counts = hand.shape_counts();
    standard_win_of(&mut counts, hand.get_melds().len())
}

/// Whether the hand is complete in one of the three families. The
/// policy says how seven pairs treat four copies of a tile. The hand is
/// taken apart in full; no distance is consulted.
pub fn is_complete(hand: &Hand, policy: PairsPolicy) -> (complete: bool)
    requires
        hand.wf(),
    ensures
        complete == hand@.is_complete(policy),
{
    let mut counts = hand.shape_counts();
    let melds: usize = hand.get_melds().len();
    standard_win_of(&mut counts, melds) || pairs_win_of(&counts, melds, policy) || singles_win_of(
        &counts,
        melds,
    )
}

} // verus!
