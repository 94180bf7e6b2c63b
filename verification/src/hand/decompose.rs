//! Arrangements of tiles into groups, partial groups and a head, and the
//! exhaustive search for the arrangement that is worth most.

use vstd::prelude::*;
use crate::hand::representation::counters;

verus! {

/// The shapes a block of an arrangement can have.
#[derive(Debug, Clone, Copy, PartialEq, Eq, Structural)]
pub enum Shape {
    /// Three identical tiles: a complete group.
    Triple,
    /// Three consecutive tiles of one suit: a complete group.
    Run,
    /// Two identical tiles set apart as the pair of the hand.
    Head,
    /// Two identical tiles waiting for a third: a partial group.
    Pair,
    /// Two tiles of one suit with neighbouring ranks: a partial group.
    Adjacent,
    /// Two tiles of one suit two ranks apart: a partial group.
    Gapped,
}

/// One block of an arrangement: a shape and the id of its lowest tile.
pub struct Block {
    pub shape: Shape,
    pub low: int,
}

/// The block exists: its lowest tile is one of the 34 identities, and a
/// block of several ranks stays within the ranks of one suit.
pub open spec fn block_ok(block: Block) -> bool {
    match block.shape {
        Shape::Triple => 0 <= block.low < 34,
        Shape::Head => 0 <= block.low < 34,
        Shape::Pair => 0 <= block.low < 34,
        Shape::Run => 0 <= block.low < 27 && block.low % 9 <= 6,
        Shape::Gapped => 0 <= block.low < 27 && block.low % 9 <= 6,
        Shape::Adjacent => 0 <= block.low < 27 && block.low % 9 <= 7,
    }
}

/// How many copies of the tile with this id the block holds.
pub open spec fn block_uses(block: Block, id: int) -> int {
    match block.shape {
        Shape::Triple => if id == block.low {
            3
        } else {
            0
        },
        Shape::Run => if block.low <= id <= block.low + 2 {
            1
        } else {
            0
        },
        Shape::Head => if id == block.low {
            2
        } else {
            0
        },
        Shape::Pair => if id == block.low {
            2
        } else {
            0
        },
        Shape::Adjacent => if id == block.low || id == block.low + 1 {
            1
        } else {
            0
        },
        Shape::Gapped => if id == block.low || id == block.low + 2 {
            1
        } else {
            0
        },
    }
}

/// 1 for a complete group, else 0.
pub open spec fn block_group(block: Block) -> int {
    if block.shape == Shape::Triple || block.shape == Shape::Run {
        1
    } else {
        0
    }
}

/// 1 for a partial group, else 0.
pub open spec fn block_partial(block: Block) -> int {
    if block.shape == Shape::Pair || block.shape == Shape::Adjacent || block.shape
        == Shape::Gapped {
        1
    } else {
        0
    }
}

/// 1 for the head, else 0.
pub open spec fn block_head(block: Block) -> int {
    if block.shape == Shape::Head {
        1
    } else {
        0
    }
}

/// What a block is worth: 2 for a complete group, 1 for a partial group
/// or the head.
pub open spec fn block_gain(block: Block) -> int {
    2 * block_group(block) + block_partial(block) + block_head(block)
}

/// One of the quantities counted over an arrangement. Slots 0 to 33 count
/// the copies of a tile, slot 34 the complete groups, slot 35 the partial
/// groups and slot 36 the heads.
pub open spec fn measure(block: Block, slot: int) -> int {
    if slot == 34 {
        block_group(block)
    } else if slot == 35 {
        block_partial(block)
    } else if slot == 36 {
        block_head(block)
    } else {
        block_uses(block, slot)
    }
}

/// The sum of a quantity over the blocks of an arrangement.
pub open spec fn tally(blocks: Seq<Block>, slot: int) -> int
    decreases blocks.len(),
{
    if blocks.len() == 0 {
        0
    } else {
        tally(blocks.drop_last(), slot) + measure(blocks.last(), slot)
    }
}

/// The number of complete groups of an arrangement.
pub open spec fn groups(blocks: Seq<Block>) -> int {
    tally(blocks, 34)
}

/// The number of partial groups of an arrangement.
pub open spec fn partials(blocks: Seq<Block>) -> int {
    tally(blocks, 35)
}

/// The number of heads of an arrangement.
pub open spec fn heads(blocks: Seq<Block>) -> int {
    tally(blocks, 36)
}

/// What an arrangement is worth: the sum of what its blocks are worth.
pub open spec fn gain(blocks: Seq<Block>) -> int {
    2 * groups(blocks) + partials(blocks) + heads(blocks)
}

/// The arrangement can be laid out with the tiles counted in `counts`,
/// using no block whose lowest tile is below `from`, no more than `room`
/// groups and partial groups together, and no more than `head_room` heads.
pub open spec fn fits_from(
    blocks: Seq<Block>,
    counts: Seq<nat>,
    from: int,
    room: int,
    head_room: int,
) -> bool {
    &&& forall|j: int|
        0 <= j < blocks.len() ==> block_ok(#[trigger] blocks[j]) && blocks[j].low >= from
    &&& forall|id: int| 0 <= id < 34 ==> #[trigger] tally(blocks, id) <= counts[id]
    &&& groups(blocks) + partials(blocks) <= room
    &&& heads(blocks) <= head_room
}

/// No arrangement that fits is worth more than `bound`.
pub open spec fn bounded(counts: Seq<nat>, from: int, room: int, head_room: int, bound: int) -> bool {
    forall|blocks: Seq<Block>| #[trigger]
        fits_from(blocks, counts, from, room, head_room) ==> gain(blocks) <= bound
}

/// Some arrangement that fits is worth exactly `worth`.
pub open spec fn reached(counts: Seq<nat>, from: int, room: int, head_room: int, worth: int) -> bool {
    exists|blocks: Seq<Block>| #[trigger]
        fits_from(blocks, counts, from, room, head_room) && gain(blocks) == worth
}

/// `best` is the most that an arrangement that fits can be worth.
pub open spec fn is_best_gain(
    counts: Seq<nat>,
    from: int,
    room: int,
    head_room: int,
    best: int,
) -> bool {
    reached(counts, from, room, head_room, best) && bounded(counts, from, room, head_room, best)
}

/// The counts hold the tiles of the block.
pub open spec fn has_tiles(counts: Seq<nat>, block: Block) -> bool {
    match block.shape {
        Shape::Triple => counts[block.low] >= 3,
        Shape::Run => counts[block.low] >= 1 && counts[block.low + 1] >= 1 && counts[block.low
            + 2] >= 1,
        Shape::Head => counts[block.low] >= 2,
        Shape::Pair => counts[block.low] >= 2,
        Shape::Adjacent => counts[block.low] >= 1 && counts[block.low + 1] >= 1,
        Shape::Gapped => counts[block.low] >= 1 && counts[block.low + 2] >= 1,
    }
}

/// The block can be laid out: it exists, the counts hold its tiles, and
/// there is room for it.
pub open spec fn affordable(counts: Seq<nat>, block: Block, room: int, head_room: int) -> bool {
    &&& block_ok(block)
    &&& has_tiles(counts, block)
    &&& block_group(block) + block_partial(block) <= room
    &&& block_head(block) <= head_room
}

/// The counts without the tiles of the block.
pub open spec fn take_block(counts: Seq<nat>, block: Block) -> Seq<nat> {
    Seq::new(counts.len(), |id: int| (counts[id] - block_uses(block, id)) as nat)
}

/// A quantity of an arrangement is never negative.
pub proof fn lemma_tally_nonnegative(blocks: Seq<Block>, slot: int)
    ensures
        tally(blocks, slot) >= 0,
    decreases blocks.len(),
{
    if blocks.len() > 0 {
        lemma_tally_nonnegative(blocks.drop_last(), slot);
    }
}

/// Adding a block adds its quantity.
pub proof fn lemma_tally_push(blocks: Seq<Block>, block: Block, slot: int)
    ensures
        tally(blocks.push(block), slot) == tally(blocks, slot) + measure(block, slot),
{
    assert(blocks.push(block).drop_last() == blocks);
}

/// Removing a block removes its quantity.
pub proof fn lemma_tally_remove(blocks: Seq<Block>, index: int, slot: int)
    requires
        0 <= index < blocks.len(),
    ensures
        tally(blocks.remove(index), slot) == tally(blocks, slot) - measure(blocks[index], slot),
    decreases blocks.len(),
{
    if index == blocks.len() - 1 {
        assert(blocks.remove(index) == blocks.drop_last());
    } else {
        assert(blocks.remove(index).drop_last() == blocks.drop_last().remove(index));
        lemma_tally_remove(blocks.drop_last(), index, slot);
    }
}

/// An arrangement that fits is worth at most two for each group or
/// partial group allowed and one for each head allowed, and no less than
/// nothing.
pub proof fn lemma_gain_range(
    blocks: Seq<Block>,
    counts: Seq<nat>,
    from: int,
    room: int,
    head_room: int,
)
    requires
        fits_from(blocks, counts, from, room, head_room),
    ensures
        0 <= gain(blocks) <= 2 * room + head_room,
        0 <= room,
        0 <= head_room,
{
    lemma_tally_nonnegative(blocks, 34);
    lemma_tally_nonnegative(blocks, 35);
    lemma_tally_nonnegative(blocks, 36);
}

/// The arrangement without blocks fits whenever there is no negative room.
pub proof fn lemma_empty_fits(counts: Seq<nat>, from: int, room: int, head_room: int)
    requires
        0 <= room,
        0 <= head_room,
    ensures
        fits_from(Seq::<Block>::empty(), counts, from, room, head_room),
        gain(Seq::<Block>::empty()) == 0,
{
}

/// Taking out of a fitting arrangement one block whose lowest tile is
/// `from` leaves an arrangement that fits what is left.
pub proof fn lemma_split(
    blocks: Seq<Block>,
    index: int,
    counts: Seq<nat>,
    from: int,
    room: int,
    head_room: int,
)
    requires
        counts.len() == 43,
        fits_from(blocks, counts, from, room, head_room),
        0 <= index < blocks.len(),
    ensures
        affordable(counts, blocks[index], room, head_room),
        fits_from(
            blocks.remove(index),
            take_block(counts, blocks[index]),
            from,
            room - block_group(blocks[index]) - block_partial(blocks[index]),
            head_room - block_head(blocks[index]),
        ),
        gain(blocks) == gain(blocks.remove(index)) + block_gain(blocks[index]),
{
    let block = blocks[index];
    let rest = blocks.remove(index);
    let left = take_block(counts, block);
    lemma_tally_remove(blocks, index, 34);
    lemma_tally_remove(blocks, index, 35);
    lemma_tally_remove(blocks, index, 36);
    lemma_tally_nonnegative(rest, 34);
    lemma_tally_nonnegative(rest, 35);
    lemma_tally_nonnegative(rest, 36);
    assert forall|id: int| 0 <= id < 34 implies #[trigger] tally(rest, id) <= left[id] && block_uses(
        block,
        id,
    ) <= counts[id] by {
        lemma_tally_remove(blocks, index, id);
        lemma_tally_nonnegative(rest, id);
    }
    assert(tally(rest, block.low) <= left[block.low]);
    if block.low + 1 < 34 {
        assert(tally(rest, block.low + 1) <= left[block.low + 1]);
    }
    if block.low + 2 < 34 {
        assert(tally(rest, block.low + 2) <= left[block.low + 2]);
    }
    assert forall|j: int| 0 <= j < rest.len() implies block_ok(#[trigger] rest[j]) && rest[j].low
        >= from by {}
}

/// Adding an affordable block whose lowest tile is not below `from` to an
/// arrangement that fits what the block leaves gives an arrangement that
/// fits.
pub proof fn lemma_join(
    rest: Seq<Block>,
    block: Block,
    counts: Seq<nat>,
    from: int,
    room: int,
    head_room: int,
)
    requires
        counts.len() == 43,
        affordable(counts, block, room, head_room),
        block.low >= from,
        fits_from(
            rest,
            take_block(counts, block),
            from,
            room - block_group(block) - block_partial(block),
            head_room - block_head(block),
        ),
    ensures
        fits_from(rest.push(block), counts, from, room, head_room),
        gain(rest.push(block)) == gain(rest) + block_gain(block),
{
    let blocks = rest.push(block);
    lemma_tally_push(rest, block, 34);
    lemma_tally_push(rest, block, 35);
    lemma_tally_push(rest, block, 36);
    assert forall|id: int| 0 <= id < 34 implies #[trigger] tally(blocks, id) <= counts[id] by {
        lemma_tally_push(rest, block, id);
    }
}

/// An arrangement that fits from a later tile on fits from an earlier one.
pub proof fn lemma_fits_earlier(
    blocks: Seq<Block>,
    counts: Seq<nat>,
    from: int,
    earlier: int,
    room: int,
    head_room: int,
)
    requires
        fits_from(blocks, counts, from, room, head_room),
        earlier <= from,
    ensures
        fits_from(blocks, counts, earlier, room, head_room),
{
}

/// If every arrangement that starts after `from` is within the bound, and
/// so is every arrangement that continues after laying out a block at
/// `from`, then every arrangement from `from` on is within the bound.
pub proof fn lemma_combine(counts: Seq<nat>, from: int, room: int, head_room: int, bound: int)
    requires
        counts.len() == 43,
        bounded(counts, from + 1, room, head_room, bound),
        forall|block: Block|
            block.low == from && #[trigger] affordable(counts, block, room, head_room) ==> bounded(
                take_block(counts, block),
                from,
                room - block_group(block) - block_partial(block),
                head_room - block_head(block),
                bound - block_gain(block),
            ),
    ensures
        bounded(counts, from, room, head_room, bound),
{
    assert forall|blocks: Seq<Block>| #[trigger]
        fits_from(blocks, counts, from, room, head_room) implies gain(blocks) <= bound by {
        if exists|j: int| 0 <= j < blocks.len() && (#[trigger] blocks[j]).low == from {
            let j = choose|j: int| 0 <= j < blocks.len() && (#[trigger] blocks[j]).low == from;
            let block = blocks[j];
            lemma_split(blocks, j, counts, from, room, head_room);
            assert(fits_from(
                blocks.remove(j),
                take_block(counts, block),
                from,
                room - block_group(block) - block_partial(block),
                head_room - block_head(block),
            ));
        } else {
            assert(fits_from(blocks, counts, from + 1, room, head_room));
        }
    }
}

/// The most an arrangement can be worth is one number only.
pub proof fn lemma_best_unique(
    counts: Seq<nat>,
    from: int,
    room: int,
    head_room: int,
    first: int,
    second: int,
)
    requires
        is_best_gain(counts, from, room, head_room, first),
        is_best_gain(counts, from, room, head_room, second),
    ensures
        first == second,
{
}

/// Below a bound that holds, some worth is the most.
pub proof fn lemma_best_below(counts: Seq<nat>, from: int, room: int, head_room: int, bound: int)
    requires
        0 <= room,
        0 <= head_room,
        0 <= bound,
        bounded(counts, from, room, head_room, bound),
    ensures
        exists|best: int| 0 <= best <= bound && #[trigger] is_best_gain(counts, from, room, head_room, best),
    decreases bound,
{
    if reached(counts, from, room, head_room, bound) {
        assert(is_best_gain(counts, from, room, head_room, bound));
    } else if bound == 0 {
        lemma_empty_fits(counts, from, room, head_room);
    } else {
        lemma_best_below(counts, from, room, head_room, bound - 1);
    }
}

/// Some worth is the most that an arrangement can be worth.
pub proof fn lemma_best_exists(counts: Seq<nat>, from: int, room: int, head_room: int)
    requires
        0 <= room,
        0 <= head_room,
    ensures
        exists|best: int|
            0 <= best <= 2 * room + head_room && #[trigger] is_best_gain(
                counts,
                from,
                room,
                head_room,
                best,
            ),
{
    assert forall|blocks: Seq<Block>| #[trigger]
        fits_from(blocks, counts, from, room, head_room) implies gain(blocks) <= 2 * room
        + head_room by {
        lemma_gain_range(blocks, counts, from, room, head_room);
    }
    lemma_best_below(counts, from, room, head_room, 2 * room + head_room);
}

/// A bound that holds keeps holding when it grows.
pub proof fn lemma_bounded_grows(
    counts: Seq<nat>,
    from: int,
    room: int,
    head_room: int,
    bound: int,
    larger: int,
)
    requires
        bounded(counts, from, room, head_room, bound),
        bound <= larger,
    ensures
        bounded(counts, from, room, head_room, larger),
{
}

/// What can be reached after laying out a block can be reached with it.
pub proof fn lemma_reached_join(
    counts: Seq<nat>,
    block: Block,
    from: int,
    room: int,
    head_room: int,
    worth: int,
)
    requires
        counts.len() == 43,
        affordable(counts, block, room, head_room),
        block.low >= from,
        reached(
            take_block(counts, block),
            from,
            room - block_group(block) - block_partial(block),
            head_room - block_head(block),
            worth - block_gain(block),
        ),
    ensures
        reached(counts, from, room, head_room, worth),
{
    let rest = choose|rest: Seq<Block>| #[trigger]
        fits_from(
            rest,
            take_block(counts, block),
            from,
            room - block_group(block) - block_partial(block),
            head_room - block_head(block),
        ) && gain(rest) == worth - block_gain(block);
    lemma_join(rest, block, counts, from, room, head_room);
}

/// What can be reached from a later tile on can be reached from an
/// earlier one.
pub proof fn lemma_reached_earlier(
    counts: Seq<nat>,
    from: int,
    earlier: int,
    room: int,
    head_room: int,
    worth: int,
)
    requires
        reached(counts, from, room, head_room, worth),
        earlier <= from,
    ensures
        reached(counts, earlier, room, head_room, worth),
{
    let blocks = choose|blocks: Seq<Block>| #[trigger]
        fits_from(blocks, counts, from, room, head_room) && gain(blocks) == worth;
    lemma_fits_earlier(blocks, counts, from, earlier, room, head_room);
}

/// An arrangement uses no tile below the lowest tile of its blocks.
pub proof fn lemma_tally_below(blocks: Seq<Block>, from: int, id: int)
    requires
        forall|j: int|
            0 <= j < blocks.len() ==> block_ok(#[trigger] blocks[j]) && blocks[j].low >= from,
        0 <= id < from,
        id < 34,
    ensures
        tally(blocks, id) == 0,
    decreases blocks.len(),
{
    if blocks.len() > 0 {
        lemma_tally_below(blocks.drop_last(), from, id);
    }
}

/// What fits counts fits any counts that are the same from `from` on.
pub proof fn lemma_fits_same_tail(
    blocks: Seq<Block>,
    first: Seq<nat>,
    second: Seq<nat>,
    from: int,
    room: int,
    head_room: int,
)
    requires
        0 <= from,
        forall|id: int| from <= id < 34 ==> #[trigger] first[id] == second[id],
        fits_from(blocks, first, from, room, head_room),
    ensures
        fits_from(blocks, second, from, room, head_room),
{
    assert forall|id: int| 0 <= id < 34 implies #[trigger] tally(blocks, id) <= second[id] by {
        if id < from {
            lemma_tally_below(blocks, from, id);
        }
    }
}

/// The most an arrangement from `from` on can be worth is the same for
/// counts that are the same from `from` on.
pub proof fn lemma_best_same_tail(
    first: Seq<nat>,
    second: Seq<nat>,
    from: int,
    room: int,
    head_room: int,
    best: int,
)
    requires
        0 <= from,
        forall|id: int| from <= id < 34 ==> #[trigger] first[id] == second[id],
        is_best_gain(first, from, room, head_room, best),
    ensures
        is_best_gain(second, from, room, head_room, best),
{
    let witness = choose|blocks: Seq<Block>| #[trigger]
        fits_from(blocks, first, from, room, head_room) && gain(blocks) == best;
    lemma_fits_same_tail(witness, first, second, from, room, head_room);
    assert forall|blocks: Seq<Block>| #[trigger]
        fits_from(blocks, second, from, room, head_room) implies gain(blocks) <= best by {
        lemma_fits_same_tail(blocks, second, first, from, room, head_room);
    }
}

/// The number of cells of the table of results.
pub const MEMO_CELLS: usize = 42500;

/// The mark of a cell without a result.
pub const MEMO_EMPTY: u8 = 255;

/// The cell of a state of the search: the tile it stands at, the room
/// left, and the copies held of that tile and of the two after it, each
/// at most 4.
pub open spec fn memo_cell(index: int, room: int, head_room: int, a: int, b: int, c: int) -> int {
    ((((index * 5 + room) * 2 + head_room) * 5 + a) * 5 + b) * 5 + c
}

/// The counts of the start with those of three tiles in a row replaced.
pub open spec fn patched(start: Seq<nat>, index: int, a: int, b: int, c: int) -> Seq<nat> {
    Seq::new(
        start.len(),
        |id: int|
            if id == index {
                a as nat
            } else if id == index + 1 {
                b as nat
            } else if id == index + 2 {
                c as nat
            } else {
                start[id]
            },
    )
}

/// Every result in the table is right: the cell of a state holds the
/// most that an arrangement can be worth in that state, where the tiles
/// further on are held as at the start.
pub open spec fn memo_ok(memo: Seq<u8>, start: Seq<nat>) -> bool {
    &&& memo.len() == 42500
    &&& forall|index: int, room: int, head_room: int, a: int, b: int, c: int|
        0 <= index < 34 && 0 <= room <= 4 && 0 <= head_room <= 1 && 0 <= a <= 4 && 0 <= b <= 4
            && 0 <= c <= 4 && memo[#[trigger] memo_cell(index, room, head_room, a, b, c)] != 255
            ==> is_best_gain(
            patched(start, index, a, b, c),
            index,
            room,
            head_room,
            memo[memo_cell(index, room, head_room, a, b, c)] as int,
        )
}

/// Tries one block at `index`: if it can be laid out, searches what is
/// left and returns the better of `best` and what the block leads to.
fn try_block(
    counts: &mut Vec<usize>,
    memo: &mut Vec<u8>,
    Ghost(start): Ghost<Seq<nat>>,
    index: usize,
    room: u8,
    head_room: u8,
    shape: Shape,
    best: u8,
) -> (improved: u8)
    requires
        old(counts)@.len() == 43,
        start.len() == 43,
        memo_ok(old(memo)@, start),
        forall|id: int| index + 3 <= id < 43 ==> #[trigger] old(counts)@[id] == start[id],
        index < 34,
        room <= 4,
        head_room <= 1,
        best <= 2 * room + head_room,
        reached(counters(old(counts)@), index as int, room as int, head_room as int, best as int),
    ensures
        final(counts)@ == old(counts)@,
        memo_ok(final(memo)@, start),
        best <= improved <= 2 * room + head_room,
        reached(counters(old(counts)@), index as int, room as int, head_room as int, improved as int),
        affordable(
            counters(old(counts)@),
            Block { shape, low: index as int },
            room as int,
            head_room as int,
        ) ==> bounded(
            take_block(counters(old(counts)@), Block { shape, low: index as int }),
            index as int,
            room - block_group(Block { shape, low: index as int }) - block_partial(
                Block { shape, low: index as int },
            ),
            head_room - block_head(Block { shape, low: index as int }),
            improved - block_gain(Block { shape, low: index as int }),
        ),
    decreases 34 - index, room + head_room, 0nat,
{
    let ghost before = counters(counts@);
    let ghost block = Block { shape, low: index as int };
    let n: usize = counts[index];
    let suited: bool = index < 27;
    let rank: usize = index % 9;
    let worth: u8 = match shape {
        Shape::Triple => {
            if room == 0 || n < 3 {
                return best;
            }
            counts.set(index, n - 3);
            assert(counters(counts@) =~= take_block(before, block));
            let rest: u8 = search_from(counts, memo, Ghost(start), index, room - 1, head_room);
            counts.set(index, n);
            rest + 2
        },
        Shape::Run => {
            if room == 0 || !suited || rank > 6 || n < 1 {
                return best;
            }
            let n1: usize = counts[index + 1];
            let n2: usize = counts[index + 2];
            if n1 < 1 || n2 < 1 {
                return best;
            }
            counts.set(index, n - 1);
            counts.set(index + 1, n1 - 1);
            counts.set(index + 2, n2 - 1);
            assert(counters(counts@) =~= take_block(before, block));
            let rest: u8 = search_from(counts, memo, Ghost(start), index, room - 1, head_room);
            counts.set(index, n);
            counts.set(index + 1, n1);
            counts.set(index + 2, n2);
            rest + 2
        },
        Shape::Head => {
            if head_room == 0 || n < 2 {
                return best;
            }
            counts.set(index, n - 2);
            assert(counters(counts@) =~= take_block(before, block));
            let rest: u8 = search_from(counts, memo, Ghost(start), index, room, head_room - 1);
            counts.set(index, n);
            rest + 1
        },
        Shape::Pair => {
            if room == 0 || n < 2 {
                return best;
            }
            counts.set(index, n - 2);
            assert(counters(counts@) =~= take_block(before, block));
            let rest: u8 = search_from(counts, memo, Ghost(start), index, room - 1, head_room);
            counts.set(index, n);
            rest + 1
        },
        Shape::Adjacent => {
            if room == 0 || !suited || rank > 7 || n < 1 {
                return best;
            }
            let n1: usize = counts[index + 1];
            if n1 < 1 {
                return best;
            }
            counts.set(index, n - 1);
            counts.set(index + 1, n1 - 1);
            assert(counters(counts@) =~= take_block(before, block));
            let rest: u8 = search_from(counts, memo, Ghost(start), index, room - 1, head_room);
            counts.set(index, n);
            counts.set(index + 1, n1);
            rest + 1
        },
        Shape::Gapped => {
            if room == 0 || !suited || rank > 6 || n < 1 {
                return best;
            }
            let n2: usize = counts[index + 2];
            if n2 < 1 {
                return best;
            }
            counts.set(index, n - 1);
            counts.set(index + 2, n2 - 1);
            assert(counters(counts@) =~= take_block(before, block));
            let rest: u8 = search_from(counts, memo, Ghost(start), index, room - 1, head_room);
            counts.set(index, n);
            counts.set(index + 2, n2);
            rest + 1
        },
    };
    proof {
        lemma_reached_join(
            before,
            block,
            index as int,
            room as int,
            head_room as int,
            worth as int,
        );
    }
    if worth > best {
        worth
    } else {
        proof {
            lemma_bounded_grows(
                take_block(before, block),
                index as int,
                room - block_group(block) - block_partial(block),
                head_room - block_head(block),
                worth - block_gain(block),
                best - block_gain(block),
            );
        }
        best
    }
}

/// The search proper. States met before are looked up in the table; a
/// state is kept there when it holds at most four copies of the tile it
/// stands at and of the two after it.
fn search_from(
    counts: &mut Vec<usize>,
    memo: &mut Vec<u8>,
    Ghost(start): Ghost<Seq<nat>>,
    index: usize,
    room: u8,
    head_room: u8,
) -> (best: u8)
    requires
        old(counts)@.len() == 43,
        start.len() == 43,
        memo_ok(old(memo)@, start),
        forall|id: int| index + 3 <= id < 43 ==> #[trigger] old(counts)@[id] == start[id],
        index <= 34,
        room <= 4,
        head_room <= 1,
    ensures
        final(counts)@ == old(counts)@,
        memo_ok(final(memo)@, start),
        is_best_gain(
            counters(old(counts)@),
            index as int,
            room as int,
            head_room as int,
            best as int,
        ),
        best <= 2 * room + head_room,
    decreases 34 - index, room + head_room, 1nat,
{
    let ghost c = counters(counts@);
    if index >= 34 {
        proof {
            lemma_empty_fits(c, index as int, room as int, head_room as int);
        }
        return 0;
    }
    if room == 0 && head_room == 0 {
        proof {
            lemma_empty_fits(c, index as int, room as int, head_room as int);
            assert forall|blocks: Seq<Block>| #[trigger]
                fits_from(blocks, c, index as int, room as int, head_room as int) implies gain(
                blocks,
            ) <= 0 by {
                lemma_gain_range(blocks, c, index as int, room as int, head_room as int);
            }
        }
        return 0;
    }
    let here: usize = counts[index];
    let next: usize = counts[index + 1];
    let after: usize = counts[index + 2];
    let kept: bool = here <= 4 && next <= 4 && after <= 4;
    let cell: usize = if kept {
        ((((index * 5 + room as usize) * 2 + head_room as usize) * 5 + here) * 5 + next) * 5 + after
    } else {
        0
    };
    let ghost state = patched(start, index as int, here as int, next as int, after as int);
    if kept {
        let known: u8 = memo[cell];
        if known != MEMO_EMPTY {
            proof {
                assert(cell == memo_cell(
                    index as int,
                    room as int,
                    head_room as int,
                    here as int,
                    next as int,
                    after as int,
                ));
                lemma_best_same_tail(
                    state,
                    c,
                    index as int,
                    room as int,
                    head_room as int,
                    known as int,
                );
                let witness = choose|blocks: Seq<Block>| #[trigger]
                    fits_from(blocks, c, index as int, room as int, head_room as int) && gain(
                        blocks,
                    ) == known;
                lemma_gain_range(witness, c, index as int, room as int, head_room as int);
            }
            return known;
        }
    }
    let skipped: u8 = search_from(counts, memo, Ghost(start), index + 1, room, head_room);
    proof {
        lemma_reached_earlier(
            c,
            index + 1,
            index as int,
            room as int,
            head_room as int,
            skipped as int,
        );
    }
    let mut best: u8 = skipped;
    if here == 0 {
        proof {
            lemma_combine(c, index as int, room as int, head_room as int, skipped as int);
        }
    } else {
        let b1: u8 = try_block(counts, memo, Ghost(start), index, room, head_room, Shape::Triple, skipped);
        let b2: u8 = try_block(counts, memo, Ghost(start), index, room, head_room, Shape::Run, b1);
        let b3: u8 = try_block(counts, memo, Ghost(start), index, room, head_room, Shape::Head, b2);
        let b4: u8 = try_block(counts, memo, Ghost(start), index, room, head_room, Shape::Pair, b3);
        let b5: u8 = try_block(counts, memo, Ghost(start), index, room, head_room, Shape::Adjacent, b4);
        let b6: u8 = try_block(counts, memo, Ghost(start), index, room, head_room, Shape::Gapped, b5);
        proof {
            lemma_bounded_grows(
                c,
                index + 1,
                room as int,
                head_room as int,
                skipped as int,
                b6 as int,
            );
            assert forall|block: Block|
                block.low == index && #[trigger] affordable(
                    c,
                    block,
                    room as int,
                    head_room as int,
                ) implies bounded(
                take_block(c, block),
                index as int,
                room - block_group(block) - block_partial(block),
                head_room - block_head(block),
                b6 - block_gain(block),
            ) by {
                let reached_here: int = match block.shape {
                    Shape::Triple => b1 as int,
                    Shape::Run => b2 as int,
                    Shape::Head => b3 as int,
                    Shape::Pair => b4 as int,
                    Shape::Adjacent => b5 as int,
                    Shape::Gapped => b6 as int,
                };
                lemma_bounded_grows(
                    take_block(c, block),
                    index as int,
                    room - block_group(block) - block_partial(block),
                    head_room - block_head(block),
                    reached_here - block_gain(block),
                    b6 - block_gain(block),
                );
            }
            lemma_combine(c, index as int, room as int, head_room as int, b6 as int);
        }
        best = b6;
    }
    if kept {
        proof {
            lemma_best_same_tail(c, state, index as int, room as int, head_room as int, best as int);
        }
        memo.set(cell, best);
        proof {
            assert forall|i2: int, r2: int, h2: int, a2: int, b2: int, c2: int|
                0 <= i2 < 34 && 0 <= r2 <= 4 && 0 <= h2 <= 1 && 0 <= a2 <= 4 && 0 <= b2 <= 4 && 0
                    <= c2 <= 4 && memo@[#[trigger] memo_cell(i2, r2, h2, a2, b2, c2)]
                    != 255 implies is_best_gain(
                patched(start, i2, a2, b2, c2),
                i2,
                r2,
                h2,
                memo@[memo_cell(i2, r2, h2, a2, b2, c2)] as int,
            ) by {}
        }
    }
    best
}

/// The most that an arrangement of the counted tiles can be worth when it
/// uses no block below `index`, at most `room` groups and partial groups,
/// and at most `head_room` heads. Every arrangement is tried, and no
/// state of the search is worked out twice. The counts are changed on
/// the way and are the same again at the end.
pub fn search(counts: &mut Vec<usize>, index: usize, room: u8, head_room: u8) -> (best: u8)
    requires
        old(counts)@.len() == 43,
        index <= 34,
        room <= 4,
        head_room <= 1,
    ensures
        final(counts)@ == old(counts)@,
        is_best_gain(
            counters(old(counts)@),
            index as int,
            room as int,
            head_room as int,
            best as int,
        ),
        best <= 2 * room + head_room,
{
    let mut memo: Vec<u8> = vec![MEMO_EMPTY; MEMO_CELLS];
    search_from(counts, &mut memo, Ghost(counters(counts@)), index, room, head_room)
}

} // verus!
