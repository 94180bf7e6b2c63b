//! The hand: concealed tiles counted by identity, declared melds, the tile
//! just drawn, and the bonus tiles laid aside.

use vstd::prelude::*;
use crate::errors::{MajiangError, MajiangResult};
use crate::meld::types::{meld_views, KanType, Meld, MeldSource, MeldType, MeldView};
use crate::meld::utils::{
    all_wf, any_claimed, copy_tiles, count_tile, has_claimed, occurrences,
};
use crate::tile::tile::{tile_at, tile_id};
use crate::tile::Tile;

verus! {

/// The sum of a table of counters.
pub open spec fn total(counts: Seq<nat>) -> nat
    decreases counts.len(),
{
    if counts.len() == 0 {
        0
    } else {
        total(counts.drop_last()) + counts.last()
    }
}

/// Changing one counter changes the sum by as much.
pub proof fn lemma_total_update(counts: Seq<nat>, index: int, value: nat)
    requires
        0 <= index < counts.len(),
    ensures
        total(counts.update(index, value)) + counts[index] == total(counts) + value,
    decreases counts.len(),
{
    let changed = counts.update(index, value);
    if index == counts.len() - 1 {
        assert(changed.drop_last() == counts.drop_last());
    } else {
        assert(changed.drop_last() == counts.drop_last().update(index, value));
        lemma_total_update(counts.drop_last(), index, value);
    }
}

/// A table of zeros sums to zero.
pub proof fn lemma_total_zero(length: nat)
    ensures
        total(Seq::new(length, |k: int| 0nat)) == 0,
    decreases length,
{
    if length > 0 {
        lemma_total_zero((length - 1) as nat);
        assert(Seq::new(length, |k: int| 0nat).drop_last() =~= Seq::new(
            (length - 1) as nat,
            |k: int| 0nat,
        ));
    }
}

/// No counter is larger than the sum.
pub proof fn lemma_total_bounds(counts: Seq<nat>, index: int)
    requires
        0 <= index < counts.len(),
    ensures
        counts[index] <= total(counts),
    decreases counts.len(),
{
    if index < counts.len() - 1 {
        lemma_total_bounds(counts.drop_last(), index);
    }
}

/// The number of tiles in a list of melds.
pub open spec fn meld_tile_total(melds: Seq<MeldView>) -> nat
    decreases melds.len(),
{
    if melds.len() == 0 {
        0
    } else {
        meld_tile_total(melds.drop_last()) + melds.last().tiles.len()
    }
}

/// How many tiles of a list of melds equal the tile.
pub open spec fn meld_occurrences(melds: Seq<MeldView>, tile: Tile) -> nat
    decreases melds.len(),
{
    if melds.len() == 0 {
        0
    } else {
        meld_occurrences(melds.drop_last(), tile) + occurrences(melds.last().tiles, tile)
    }
}

/// The sum of a leading part of a table is no larger than the sum of all.
pub proof fn lemma_total_prefix(counts: Seq<nat>, length: int)
    requires
        0 <= length <= counts.len(),
    ensures
        total(counts.take(length)) <= total(counts),
    decreases counts.len() - length,
{
    if length < counts.len() {
        assert(counts.take(length + 1).drop_last() == counts.take(length));
        lemma_total_prefix(counts, length + 1);
    } else {
        assert(counts.take(length) == counts);
    }
}

/// A tile occurs in a list no more often than the list is long.
pub proof fn lemma_occurrences_bound(tiles: Seq<Tile>, tile: Tile)
    ensures
        occurrences(tiles, tile) <= tiles.len(),
    decreases tiles.len(),
{
    if tiles.len() > 0 {
        lemma_occurrences_bound(tiles.drop_last(), tile);
    }
}

/// A tile occurs in melds no more often than the melds have tiles.
pub proof fn lemma_meld_occurrences_bound(melds: Seq<MeldView>, tile: Tile)
    ensures
        meld_occurrences(melds, tile) <= meld_tile_total(melds),
    decreases melds.len(),
{
    if melds.len() > 0 {
        lemma_meld_occurrences_bound(melds.drop_last(), tile);
        lemma_occurrences_bound(melds.last().tiles, tile);
    }
}

/// Well-formed melds have at most four tiles each.
pub proof fn lemma_meld_tile_total_bound(melds: Seq<MeldView>)
    requires
        forall|i: int| 0 <= i < melds.len() ==> (#[trigger] melds[i]).wf(),
    ensures
        meld_tile_total(melds) <= 4 * melds.len(),
    decreases melds.len(),
{
    if melds.len() > 0 {
        lemma_meld_tile_total_bound(melds.drop_last());
    }
}

/// The tiles of a meld that its owner drew, in their order.
pub open spec fn own_tiles(tiles: Seq<Tile>, sources: Seq<MeldSource>) -> Seq<Tile>
    decreases tiles.len(),
{
    if tiles.len() == 0 || sources.len() != tiles.len() {
        seq![]
    } else {
        own_tiles(tiles.drop_last(), sources.drop_last()) + if sources.last()
            == MeldSource::SelfDrawn {
            seq![tiles.last()]
        } else {
            seq![]
        }
    }
}

/// The tiles that leave the concealed part of a hand when it declares the
/// meld: the one added tile of a promoted quad, else the tiles that the
/// owner drew.
pub open spec fn tiles_to_take(meld: MeldView) -> Seq<Tile> {
    if meld.meld_type == MeldType::Kan(KanType::Added) {
        seq![meld.tiles.last()]
    } else {
        own_tiles(meld.tiles, meld.sources)
    }
}

/// Whether the meld is a claimed triple of the tile.
pub open spec fn is_triple_of(meld: MeldView, tile: Tile) -> bool {
    meld.meld_type is Pon && meld.tiles.len() == 3 && meld.tiles[0] == tile && has_claimed(
        meld.sources,
    )
}

/// The position of the last claimed triple of the tile among the melds,
/// or -1.
pub open spec fn triple_index(melds: Seq<MeldView>, tile: Tile) -> int
    decreases melds.len(),
{
    if melds.len() == 0 {
        -1
    } else if is_triple_of(melds.last(), tile) {
        melds.len() - 1
    } else {
        triple_index(melds.drop_last(), tile)
    }
}

/// The error that reports a refusal.
pub open spec fn reports(error: MajiangError, refusal: MeldRefusal) -> bool {
    match refusal {
        MeldRefusal::Malformed => error is InvalidMeld,
        MeldRefusal::NoTriple => error is InvalidMeld,
        MeldRefusal::TooMany => error is InvalidOperation,
        MeldRefusal::Missing => error is TileNotFound,
    }
}

/// Why a hand refuses to declare a meld.
pub enum MeldRefusal {
    /// The meld is not well formed.
    Malformed,
    /// A promoted quad without the triple it promotes: the hand has
    /// declared no claimed triple of its tile, or one whose tiles came
    /// from elsewhere than the first three of the quad.
    NoTriple,
    /// The hand has four melds already.
    TooMany,
    /// The hand lacks a tile that the meld takes from it.
    Missing,
}

/// The tiles that a table of counters stands for, below the identity
/// `upto`: for each identity in turn, as many copies as its counter says.
pub open spec fn expand(counts: Seq<nat>, upto: nat) -> Seq<Tile>
    decreases upto,
{
    if upto == 0 {
        seq![]
    } else {
        expand(counts, (upto - 1) as nat) + Seq::new(
            counts[upto - 1],
            |k: int| tile_at(upto - 1),
        )
    }
}

/// What a hand holds, as plain values.
pub struct HandView {
    /// For each of the 43 identities, the number of concealed copies.
    pub counts: Seq<nat>,
    /// The declared melds, oldest first.
    pub melds: Seq<MeldView>,
    /// The tile just drawn.
    pub drawn: Option<Tile>,
    /// The bonus tiles laid aside.
    pub flowers: Seq<Tile>,
}

impl HandView {
    /// The hand without any tile.
    pub open spec fn empty() -> HandView {
        HandView {
            counts: Seq::new(43, |k: int| 0nat),
            melds: seq![],
            drawn: None,
            flowers: seq![],
        }
    }

    /// What every hand satisfies: 43 counters whose sum is within the
    /// capacity, at most four melds, each well formed and so made of
    /// well-formed tiles, and a well-formed drawn tile.
    pub open spec fn wf(self) -> bool {
        &&& self.counts.len() == 43
        &&& self.concealed() <= hand_capacity()
        &&& self.melds.len() <= 4
        &&& forall|i: int| 0 <= i < self.melds.len() ==> (#[trigger] self.melds[i]).wf()
        &&& self.drawn matches Some(tile) ==> tile.wf()
    }

    /// The number of concealed tiles, the drawn tile not counted.
    pub open spec fn concealed(self) -> nat {
        total(self.counts)
    }

    /// 1 if the drawn tile has the identity, else 0.
    pub open spec fn drawn_count(self, id: int) -> nat {
        match self.drawn {
            Some(tile) => if tile_id(tile) == id {
                1
            } else {
                0
            },
            None => 0,
        }
    }

    /// The number of tiles in all: concealed, in melds, and drawn.
    pub open spec fn tile_count(self) -> nat {
        self.concealed() + meld_tile_total(self.melds) + if self.drawn is Some {
            1nat
        } else {
            0nat
        }
    }

    /// For each identity, the copies that can still be arranged: the
    /// concealed ones and the drawn tile.
    pub open spec fn shape(self) -> Seq<nat> {
        Seq::new(43, |k: int| self.counts[k] + self.drawn_count(k))
    }

    /// For each identity, the copies the hand shows to its owner: the
    /// concealed ones, the drawn tile and the tiles of the melds.
    pub open spec fn visible(self) -> Seq<nat> {
        Seq::new(
            43,
            |k: int| self.counts[k] + self.drawn_count(k) + meld_occurrences(self.melds, tile_at(k)),
        )
    }

    /// The hand with one more concealed copy of the tile.
    pub open spec fn with_tile(self, tile: Tile) -> HandView {
        HandView {
            counts: self.counts.update(tile_id(tile), self.counts[tile_id(tile)] + 1),
            ..self
        }
    }

    /// The hand with one concealed copy of the tile less.
    pub open spec fn without_tile(self, tile: Tile) -> HandView {
        HandView {
            counts: self.counts.update(tile_id(tile), (self.counts[tile_id(tile)] - 1) as nat),
            ..self
        }
    }

    /// The hand with the given drawn tile, or none.
    pub open spec fn with_drawn(self, tile: Option<Tile>) -> HandView {
        HandView { drawn: tile, ..self }
    }

    /// The hand after giving up one copy of the tile: a concealed copy if
    /// there is one, else the drawn tile if it is the tile.
    pub open spec fn take(self, tile: Tile) -> Option<HandView> {
        if self.counts[tile_id(tile)] > 0 {
            Some(self.without_tile(tile))
        } else if self.drawn == Some(tile) {
            Some(self.with_drawn(None))
        } else {
            None
        }
    }

    /// The hand after giving up the tiles one after the other, if it has
    /// them all.
    pub open spec fn take_all(self, tiles: Seq<Tile>) -> Option<HandView>
        decreases tiles.len(),
    {
        if tiles.len() == 0 {
            Some(self)
        } else {
            match self.take_all(tiles.drop_last()) {
                Some(rest) => rest.take(tiles.last()),
                None => None,
            }
        }
    }

    /// What declaring the meld does to the hand. A promoted quad takes
    /// the place of the claimed triple it promotes, and is refused where
    /// the hand has declared none of its tile, or where its first three
    /// tiles do not have the provenance of the tiles of that triple; any
    /// other meld is added at the end. The tiles of `tiles_to_take` leave
    /// the hand.
    pub open spec fn declare(self, meld: MeldView) -> Result<HandView, MeldRefusal> {
        let promoted = meld.meld_type == MeldType::Kan(KanType::Added);
        let slot = triple_index(self.melds, meld.tiles[0]);
        if !meld.wf() {
            Err(MeldRefusal::Malformed)
        } else if promoted && (slot < 0 || self.melds[slot].sources != meld.sources.take(3)) {
            Err(MeldRefusal::NoTriple)
        } else if !promoted && self.melds.len() >= 4 {
            Err(MeldRefusal::TooMany)
        } else {
            match self.take_all(tiles_to_take(meld)) {
                None => Err(MeldRefusal::Missing),
                Some(rest) => Ok(
                    HandView {
                        melds: if promoted {
                            self.melds.update(slot, meld)
                        } else {
                            self.melds.push(meld)
                        },
                        ..rest
                    },
                ),
            }
        }
    }

    /// The hand with one more bonus tile laid aside.
    pub open spec fn with_flower(self, tile: Tile) -> HandView {
        HandView { flowers: self.flowers.push(tile), ..self }
    }

    /// No meld of the hand lies face up.
    pub open spec fn is_menzen(self) -> bool {
        forall|i: int|
            0 <= i < self.melds.len() ==> (#[trigger] self.melds[i]).meld_type == MeldType::Kan(
                KanType::Closed,
            )
    }
}

/// The largest number of concealed tiles a hand can count.
pub open spec fn hand_capacity() -> nat {
    (usize::MAX - 17) as nat
}

/// The counters as numbers without a bound.
pub open spec fn counters(raw: Seq<usize>) -> Seq<nat> {
    Seq::new(raw.len(), |k: int| raw[k] as nat)
}

/// The hand of one player.
#[derive(Debug, Clone)]
pub struct Hand {
    closed: Vec<usize>,
    melds: Vec<Meld>,
    drawn_tile: Option<Tile>,
    flowers: Vec<Tile>,
}

impl View for Hand {
    type V = HandView;

    closed spec fn view(&self) -> HandView {
        HandView {
            counts: counters(self.closed@),
            melds: meld_views(self.melds@),
            drawn: self.drawn_tile,
            flowers: self.flowers@,
        }
    }
}

impl Hand {
    /// A hand is well formed when what it holds is.
    pub open spec fn wf(&self) -> bool {
        self@.wf()
    }

    /// The hand without any tile.
    pub fn new() -> (hand: Self)
        ensures
            hand@ == HandView::empty(),
            hand@.concealed() == 0,
            hand.wf(),
    {
        proof {
            lemma_total_zero(43);
        }
        let mut closed: Vec<usize> = Vec::new();
        let mut i: usize = 0;
        while i < 43
            invariant
                i <= 43,
                closed@.len() == i,
                forall|k: int| 0 <= k < i ==> closed@[k] == 0,
                total(counters(closed@)) == 0,
            decreases 43 - i,
        {
            let ghost before = closed@;
            closed.push(0);
            assert(counters(closed@).drop_last() == counters(before));
            i = i + 1;
        }
        assert(counters(closed@) == HandView::empty().counts);
        let melds: Vec<Meld> = Vec::new();
        assert(meld_views(melds@) =~= HandView::empty().melds);
        Hand { closed, melds, drawn_tile: None, flowers: Vec::new() }
    }

    /// Adds one concealed copy of the tile.
    pub fn add_tile(&mut self, tile: Tile)
        requires
            old(self).wf(),
            tile.wf(),
            old(self)@.concealed() < hand_capacity(),
        ensures
            final(self)@ == old(self)@.with_tile(tile),
            final(self)@.concealed() == old(self)@.concealed() + 1,
            final(self).wf(),
    {
        let id: usize = tile.to_id() as usize;
        let count: usize = self.closed[id];
        proof {
            lemma_total_bounds(counters(self.closed@), id as int);
            lemma_total_update(counters(self.closed@), id as int, (count + 1) as nat);
        }
        assert(counters(self.closed@.update(id as int, (count + 1) as usize)) == counters(
            self.closed@,
        ).update(id as int, (count + 1) as nat));
        self.closed.set(id, count + 1);
    }

    /// Removes one concealed copy of the tile, if there is one, and says
    /// whether it did.
    pub fn remove_tile(&mut self, tile: &Tile) -> (removed: bool)
        requires
            old(self).wf(),
        ensures
            removed == (tile.wf() && old(self)@.counts[tile_id(*tile)] > 0),
            removed ==> final(self)@ == old(self)@.without_tile(*tile),
            removed ==> final(self)@.concealed() == old(self)@.concealed() - 1,
            !removed ==> final(self)@ == old(self)@,
            final(self).wf(),
    {
        if !tile.is_valid() {
            return false;
        }
        let id: usize = tile.to_id() as usize;
        let count: usize = self.closed[id];
        if count == 0 {
            return false;
        }
        proof {
            lemma_total_bounds(counters(self.closed@), id as int);
            lemma_total_update(counters(self.closed@), id as int, (count - 1) as nat);
        }
        assert(counters(self.closed@.update(id as int, (count - 1) as usize)) == counters(
            self.closed@,
        ).update(id as int, (count - 1) as nat));
        self.closed.set(id, count - 1);
        true
    }

    /// Adds one concealed copy of the tile.
    pub fn add_closed_tile(&mut self, tile: Tile)
        requires
            old(self).wf(),
            tile.wf(),
            old(self)@.concealed() < hand_capacity(),
        ensures
            final(self)@ == old(self)@.with_tile(tile),
            final(self)@.concealed() == old(self)@.concealed() + 1,
            final(self).wf(),
    {
        self.add_tile(tile)
    }

    /// Removes one concealed copy of the tile, if there is one, and says
    /// whether it did.
    pub fn remove_closed_tile(&mut self, tile: &Tile) -> (removed: bool)
        requires
            old(self).wf(),
        ensures
            removed == (tile.wf() && old(self)@.counts[tile_id(*tile)] > 0),
            removed ==> final(self)@ == old(self)@.without_tile(*tile),
            removed ==> final(self)@.concealed() == old(self)@.concealed() - 1,
            !removed ==> final(self)@ == old(self)@,
            final(self).wf(),
    {
        self.remove_tile(tile)
    }

    /// Sets the drawn tile, or clears it.
    pub fn set_drawn_tile(&mut self, tile: Option<Tile>)
        requires
            old(self).wf(),
            tile matches Some(t) ==> t.wf(),
        ensures
            final(self)@ == old(self)@.with_drawn(tile),
            final(self).wf(),
    {
        self.drawn_tile = tile;
    }

    /// The drawn tile, if there is one.
    pub fn get_drawn_tile(&self) -> (tile: Option<Tile>)
        ensures
            tile == self@.drawn,
    {
        self.drawn_tile
    }

    /// Whether the drawn tile is the tile.
    pub fn is_drawn_tile(&self, tile: &Tile) -> (yes: bool)
        ensures
            yes == (self@.drawn == Some(*tile)),
    {
        match self.drawn_tile {
            Some(drawn) => drawn == *tile,
            None => false,
        }
    }

    /// The number of concealed copies of the tile.
    pub fn count_of(&self, tile: &Tile) -> (count: usize)
        requires
            self.wf(),
        ensures
            count == if tile.wf() {
                self@.counts[tile_id(*tile)]
            } else {
                0
            },
    {
        if !tile.is_valid() {
            return 0;
        }
        self.closed[tile.to_id() as usize]
    }

    /// Whether a concealed copy of the tile is held.
    pub fn contains_closed_tile(&self, tile: &Tile) -> (yes: bool)
        requires
            self.wf(),
        ensures
            yes == (tile.wf() && self@.counts[tile_id(*tile)] > 0),
    {
        self.count_of(tile) > 0
    }

    /// The declared melds, oldest first.
    pub fn get_melds(&self) -> (melds: &Vec<Meld>)
        ensures
            meld_views(melds@) == self@.melds,
    {
        &self.melds
    }

    /// The bonus tiles laid aside, oldest first.
    pub fn get_flowers(&self) -> (flowers: &Vec<Tile>)
        ensures
            flowers@ == self@.flowers,
    {
        &self.flowers
    }

    /// Lays a bonus tile aside.
    pub fn add_flower(&mut self, tile: Tile)
        requires
            old(self).wf(),
        ensures
            final(self)@ == old(self)@.with_flower(tile),
            final(self).wf(),
    {
        self.flowers.push(tile);
    }

    /// A copy of the hand.
    pub fn duplicate(&self) -> (copy: Self)
        requires
            self.wf(),
        ensures
            copy@ == self@,
            copy.wf(),
    {
        let closed: Vec<usize> = copy_counts(&self.closed);
        let mut melds: Vec<Meld> = Vec::new();
        let mut j: usize = 0;
        while j < self.melds.len()
            invariant
                j <= self.melds@.len(),
                melds@.len() == j,
                forall|k: int| 0 <= k < j ==> (#[trigger] melds@[k])@ == self.melds@[k]@,
            decreases self.melds@.len() - j,
        {
            melds.push(self.melds[j].duplicate());
            j = j + 1;
        }
        assert(meld_views(melds@) =~= meld_views(self.melds@));
        Hand {
            closed,
            melds,
            drawn_tile: self.drawn_tile,
            flowers: copy_tiles(&self.flowers),
        }
    }

    /// The concealed tiles in the order of their ids, the drawn tile not
    /// among them.
    pub fn get_closed_tiles(&self) -> (tiles: Vec<Tile>)
        requires
            self.wf(),
        ensures
            tiles@ == expand(self@.counts, 43),
    {
        expand_counts(&self.closed)
    }

    /// For each identity, the concealed copies and the drawn tile.
    pub fn shape_counts(&self) -> (counts: Vec<usize>)
        requires
            self.wf(),
        ensures
            counts@.len() == 43,
            counters(counts@) == self@.shape(),
    {
        let mut counts: Vec<usize> = Vec::new();
        let drawn_id: usize = match self.drawn_tile {
            Some(tile) => tile.to_id() as usize,
            None => 43,
        };
        let mut i: usize = 0;
        while i < 43
            invariant
                i <= 43,
                self.wf(),
                counts@.len() == i,
                drawn_id == match self.drawn_tile {
                    Some(tile) => tile_id(tile),
                    None => 43,
                },
                forall|k: int| 0 <= k < i ==> (#[trigger] counts@[k]) == self@.shape()[k],
            decreases 43 - i,
        {
            proof {
                lemma_total_bounds(counters(self.closed@), i as int);
            }
            let bonus: usize = if i == drawn_id {
                1
            } else {
                0
            };
            counts.push(self.closed[i] + bonus);
            i = i + 1;
        }
        counts
    }

    /// For each identity, the concealed copies, the drawn tile and the
    /// tiles of the melds.
    pub fn visible_counts(&self) -> (counts: Vec<usize>)
        requires
            self.wf(),
        ensures
            counts@.len() == 43,
            counters(counts@) == self@.visible(),
    {
        let shape = self.shape_counts();
        let mut counts: Vec<usize> = Vec::new();
        let mut i: usize = 0;
        while i < 43
            invariant
                i <= 43,
                self.wf(),
                shape@.len() == 43,
                counters(shape@) == self@.shape(),
                counts@.len() == i,
                forall|k: int| 0 <= k < i ==> (#[trigger] counts@[k]) == self@.visible()[k],
            decreases 43 - i,
        {
            let tile: Tile = match Tile::from_id(i as u8) {
                Some(tile) => tile,
                None => Tile::Joker,
            };
            let mut in_melds: usize = 0;
            let mut j: usize = 0;
            let ghost views = meld_views(self.melds@);
            proof {
                lemma_meld_tile_total_bound(views);
            }
            while j < self.melds.len()
                invariant
                    j <= self.melds@.len(),
                    views == meld_views(self.melds@),
                    meld_tile_total(views) <= 16,
                    in_melds == meld_occurrences(views.take(j as int), tile),
                    in_melds <= meld_tile_total(views.take(j as int)),
                    meld_tile_total(views.take(j as int)) <= meld_tile_total(views),
                decreases self.melds@.len() - j,
            {
                proof {
                    assert(views.take(j + 1).drop_last() == views.take(j as int));
                    lemma_occurrences_bound(views[j as int].tiles, tile);
                    lemma_meld_total_prefix(views, j + 1);
                }
                in_melds = in_melds + count_tile(self.melds[j].tiles.as_slice(), tile);
                j = j + 1;
            }
            assert(views.take(j as int) == views);
            proof {
                lemma_total_bounds(counters(self.closed@), i as int);
                assert(counters(shape@)[i as int] == self@.shape()[i as int]);
            }
            counts.push(shape[i] + in_melds);
            i = i + 1;
        }
        counts
    }

    /// Every tile of the hand in the order of the ids: the concealed
    /// tiles, the drawn tile and the tiles of the melds.
    pub fn all_tiles(&self) -> (tiles: Vec<Tile>)
        requires
            self.wf(),
        ensures
            tiles@ == expand(self@.visible(), 43),
    {
        let counts = self.visible_counts();
        expand_counts(&counts)
    }

    /// Whether the hand holds the tile, concealed or as the drawn tile.
    pub fn holds_tile(&self, tile: &Tile) -> (held: bool)
        requires
            self.wf(),
        ensures
            held == (tile.wf() && (self@.counts[tile_id(*tile)] > 0 || self@.drawn == Some(*tile))),
    {
        self.count_of(tile) > 0 || self.is_drawn_tile(tile)
    }

    /// The number of concealed tiles, the drawn tile not counted.
    pub fn concealed_count(&self) -> (count: usize)
        requires
            self.wf(),
        ensures
            count == self@.concealed(),
    {
        let mut count: usize = 0;
        let mut i: usize = 0;
        while i < 43
            invariant
                i <= 43,
                self.wf(),
                count == total(counters(self.closed@).take(i as int)),
            decreases 43 - i,
        {
            proof {
                assert(counters(self.closed@).take(i + 1).drop_last() == counters(
                    self.closed@,
                ).take(i as int));
                lemma_total_prefix(counters(self.closed@), i + 1);
            }
            count = count + self.closed[i];
            i = i + 1;
        }
        assert(counters(self.closed@).take(43) == counters(self.closed@));
        count
    }

    /// Whether a claimed triple of the tile is among the declared melds.
    pub fn has_triple_of(&self, tile: Tile) -> (found: bool)
        ensures
            found == (triple_index(self@.melds, tile) >= 0),
    {
        let ghost views = meld_views(self.melds@);
        let mut found: bool = false;
        let mut i: usize = 0;
        while i < self.melds.len()
            invariant
                i <= self.melds@.len(),
                views == meld_views(self.melds@),
                found == (triple_index(views.take(i as int), tile) >= 0),
            decreases self.melds@.len() - i,
        {
            assert(views.take(i + 1).drop_last() == views.take(i as int));
            let is_triple: bool = match self.melds[i].meld_type {
                MeldType::Pon => self.melds[i].tiles.len() == 3 && self.melds[i].tiles[0] == tile
                    && any_claimed(self.melds[i].sources.as_slice()),
                _ => false,
            };
            if is_triple {
                found = true;
            }
            i = i + 1;
        }
        assert(views.take(i as int) == views);
        found
    }

    /// Declares a meld. The hand becomes what `declare` says, or stays as
    /// it is when `declare` refuses; the error then `reports` the refusal.
    pub fn add_meld(&mut self, meld: Meld) -> (done: MajiangResult<()>)
        requires
            old(self).wf(),
        ensures
            final(self).wf(),
            match old(self)@.declare(meld@) {
                Ok(view) => done is Ok && final(self)@ == view,
                Err(refusal) => final(self)@ == old(self)@ && (done matches Err(error) && reports(
                    error,
                    refusal,
                )),
            },
    {
        if !meld.is_well_formed() {
            return Err(MajiangError::InvalidMeld(String::from_str("副露不合法")));
        }
        let promoted: bool = match meld.meld_type {
            MeldType::Kan(KanType::Added) => true,
            _ => false,
        };
        let ghost views = meld_views(self.melds@);
        let key: Tile = meld.tiles[0];
        let mut slot: usize = self.melds.len();
        let mut i: usize = 0;
        while i < self.melds.len()
            invariant
                i <= self.melds@.len(),
                views == meld_views(self.melds@),
                slot <= self.melds@.len(),
                triple_index(views.take(i as int), key) == if slot < self.melds@.len() {
                    slot as int
                } else {
                    -1
                },
            decreases self.melds@.len() - i,
        {
            assert(views.take(i + 1).drop_last() == views.take(i as int));
            let is_triple: bool = match self.melds[i].meld_type {
                MeldType::Pon => self.melds[i].tiles.len() == 3 && self.melds[i].tiles[0] == key
                    && any_claimed(self.melds[i].sources.as_slice()),
                _ => false,
            };
            if is_triple {
                slot = i;
            }
            i = i + 1;
        }
        assert(views.take(i as int) == views);
        if promoted {
            if slot >= self.melds.len() {
                return Err(MajiangError::InvalidMeld(String::from_str("加杠需要已有的碰")));
            }
            let triple: &Meld = &self.melds[slot];
            assert(views[slot as int] == triple@);
            let same: bool = triple.sources.len() == 3 && triple.sources[0] == meld.sources[0]
                && triple.sources[1] == meld.sources[1] && triple.sources[2] == meld.sources[2];
            if !same {
                assert(triple@.sources != meld@.sources.take(3)) by {
                    if triple@.sources == meld@.sources.take(3) {
                        assert(meld@.sources.take(3)[0] == meld@.sources[0]);
                        assert(meld@.sources.take(3)[1] == meld@.sources[1]);
                        assert(meld@.sources.take(3)[2] == meld@.sources[2]);
                    }
                }
                return Err(MajiangError::InvalidMeld(String::from_str("加杠与已有的碰来源不符")));
            }
            assert(triple@.sources =~= meld@.sources.take(3));
        }
        if !promoted && self.melds.len() >= 4 {
            return Err(MajiangError::InvalidOperation(String::from_str("副露数量已达上限")));
        }
        let mut closed: Vec<usize> = copy_counts(&self.closed);
        let mut drawn: Option<Tile> = self.drawn_tile;
        let ghost start = self@;
        let ghost mut current = self@;
        let count: usize = meld.tiles.len();
        if promoted {
            let tile: Tile = meld.tiles[count - 1];
            assert(seq![tile].drop_last() == Seq::<Tile>::empty());
            assert(start.take_all(Seq::<Tile>::empty()) == Some(start));
            let id: usize = tile.to_id() as usize;
            let held: usize = closed[id];
            if held > 0 {
                proof {
                    lemma_total_update(counters(closed@), id as int, (held - 1) as nat);
                    assert(counters(closed@.update(id as int, (held - 1) as usize)) == counters(
                        closed@,
                    ).update(id as int, (held - 1) as nat));
                    current = current.without_tile(tile);
                }
                closed.set(id, held - 1);
            } else if is_tile(drawn, tile) {
                drawn = None;
                proof {
                    current = current.with_drawn(None);
                }
            } else {
                return Err(MajiangError::TileNotFound);
            }
        } else {
            let mut j: usize = 0;
            while j < count
                invariant
                    j <= count,
                    count == meld.tiles@.len(),
                    count == meld.sources@.len(),
                    all_wf(meld.tiles@),
                    closed@.len() == 43,
                    start.take_all(own_tiles(meld.tiles@.take(j as int), meld.sources@.take(j as int)))
                        == Some(current),
                    current.counts == counters(closed@),
                    current.drawn == drawn,
                    current.melds == start.melds,
                    current.flowers == start.flowers,
                    total(current.counts) <= total(start.counts),
                    start == old(self)@,
                    start.wf(),
                    start.melds.len() < 4,
                    meld@.wf(),
                    drawn matches Some(t) ==> t.wf(),
                    !promoted,
                    meld@.meld_type != MeldType::Kan(KanType::Added),
                    *self == *old(self),
                decreases count - j,
            {
                let ghost tiles_next = meld.tiles@.take(j + 1);
                let ghost sources_next = meld.sources@.take(j + 1);
                assert(tiles_next.drop_last() == meld.tiles@.take(j as int));
                assert(sources_next.drop_last() == meld.sources@.take(j as int));
                let tile: Tile = meld.tiles[j];
                let own: bool = match meld.sources[j] {
                    MeldSource::SelfDrawn => true,
                    MeldSource::Player(_) => false,
                };
                if own {
                    assert(own_tiles(tiles_next, sources_next).drop_last() == own_tiles(
                        meld.tiles@.take(j as int),
                        meld.sources@.take(j as int),
                    ));
                    let id: usize = tile.to_id() as usize;
                    let held: usize = closed[id];
                    if held > 0 {
                        proof {
                            lemma_total_update(counters(closed@), id as int, (held - 1) as nat);
                            current = current.without_tile(tile);
                        }
                        closed.set(id, held - 1);
                    } else if is_tile(drawn, tile) {
                        drawn = None;
                        proof {
                            current = current.with_drawn(None);
                        }
                    } else {
                        proof {
                            lemma_take_all_fails(
                                start,
                                own_tiles(tiles_next, sources_next),
                                meld.tiles@,
                                meld.sources@,
                                j + 1,
                            );
                        }
                        return Err(MajiangError::TileNotFound);
                    }
                }
                j = j + 1;
            }
            assert(meld.tiles@.take(j as int) == meld.tiles@);
            assert(meld.sources@.take(j as int) == meld.sources@);
        }
        let ghost meld_view = meld@;
        self.closed = closed;
        self.drawn_tile = drawn;
        if promoted {
            self.melds.set(slot, meld);
            assert(meld_views(self.melds@) =~= views.update(slot as int, meld_view));
        } else {
            self.melds.push(meld);
            assert(meld_views(self.melds@) =~= views.push(meld_view));
        }
        Ok(())
    }

    /// Puts a meld among the melds of the hand and takes no tile from
    /// the hand for it. A meld that is not well formed, or a fifth meld,
    /// is not put there.
    pub fn attach_meld(&mut self, meld: Meld) -> (attached: bool)
        requires
            old(self).wf(),
        ensures
            final(self).wf(),
            attached == (meld@.wf() && old(self)@.melds.len() < 4),
            attached ==> final(self)@ == (HandView {
                melds: old(self)@.melds.push(meld@),
                ..old(self)@
            }),
            !attached ==> final(self)@ == old(self)@,
    {
        if !meld.is_well_formed() || self.melds.len() >= 4 {
            return false;
        }
        let ghost views = meld_views(self.melds@);
        let ghost meld_view = meld@;
        self.melds.push(meld);
        assert(meld_views(self.melds@) =~= views.push(meld_view));
        true
    }

    /// The number of tiles of the hand: concealed, in melds, and drawn.
    pub fn tile_count(&self) -> (count: usize)
        requires
            self.wf(),
        ensures
            count == self@.tile_count(),
    {
        let mut count: usize = 0;
        let mut i: usize = 0;
        while i < 43
            invariant
                i <= 43,
                self.wf(),
                count == total(counters(self.closed@).take(i as int)),
            decreases 43 - i,
        {
            proof {
                assert(counters(self.closed@).take(i + 1).drop_last() == counters(
                    self.closed@,
                ).take(i as int));
                lemma_total_prefix(counters(self.closed@), i + 1);
            }
            count = count + self.closed[i];
            i = i + 1;
        }
        assert(counters(self.closed@).take(43) == counters(self.closed@));
        let mut j: usize = 0;
        let mut in_melds: usize = 0;
        let ghost views = meld_views(self.melds@);
        proof {
            lemma_meld_tile_total_bound(views);
        }
        while j < self.melds.len()
            invariant
                j <= self.melds@.len(),
                views == meld_views(self.melds@),
                meld_tile_total(views) <= 16,
                in_melds == meld_tile_total(views.take(j as int)),
                in_melds <= meld_tile_total(views),
            decreases self.melds@.len() - j,
        {
            proof {
                assert(views.take(j + 1).drop_last() == views.take(j as int));
                lemma_meld_total_prefix(views, j + 1);
            }
            in_melds = in_melds + self.melds[j].tiles.len();
            j = j + 1;
        }
        assert(views.take(j as int) == views);
        let drawn: usize = if self.drawn_tile.is_some() {
            1
        } else {
            0
        };
        count + in_melds + drawn
    }

    /// Whether no meld of the hand lies face up.
    pub fn is_menzen(&self) -> (menzen: bool)
        ensures
            menzen == self@.is_menzen(),
    {
        let mut i: usize = 0;
        while i < self.melds.len()
            invariant
                i <= self.melds@.len(),
                forall|k: int|
                    0 <= k < i ==> (#[trigger] self@.melds[k]).meld_type == MeldType::Kan(
                        KanType::Closed,
                    ),
            decreases self.melds@.len() - i,
        {
            assert(self@.melds[i as int] == self.melds@[i as int]@);
            if self.melds[i].is_open() {
                return false;
            }
            i = i + 1;
        }
        true
    }
}

/// Once a leading part of the tiles cannot be taken, the whole cannot.
pub proof fn lemma_take_all_fails(
    start: HandView,
    part: Seq<Tile>,
    tiles: Seq<Tile>,
    sources: Seq<MeldSource>,
    length: int,
)
    requires
        tiles.len() == sources.len(),
        0 <= length <= tiles.len(),
        part == own_tiles(tiles.take(length), sources.take(length)),
        start.take_all(part) is None,
    ensures
        start.take_all(own_tiles(tiles, sources)) is None,
    decreases tiles.len() - length,
{
    if length == tiles.len() {
        assert(tiles.take(length) == tiles);
        assert(sources.take(length) == sources);
    } else {
        let tiles_next = tiles.take(length + 1);
        let sources_next = sources.take(length + 1);
        assert(tiles_next.drop_last() == tiles.take(length));
        assert(sources_next.drop_last() == sources.take(length));
        let next = own_tiles(tiles_next, sources_next);
        if sources_next.last() == MeldSource::SelfDrawn {
            assert(next.drop_last() == part);
        }
        lemma_take_all_fails(start, next, tiles, sources, length + 1);
    }
}

/// Whether the tile drawn, if any, is the tile.
fn is_tile(drawn: Option<Tile>, tile: Tile) -> (yes: bool)
    ensures
        yes == (drawn == Some(tile)),
{
    match drawn {
        Some(other) => other == tile,
        None => false,
    }
}

/// A copy of a table of counters.
fn copy_counts(counts: &Vec<usize>) -> (copy: Vec<usize>)
    ensures
        copy@ == counts@,
{
    let mut copy: Vec<usize> = Vec::new();
    let mut i: usize = 0;
    while i < counts.len()
        invariant
            i <= counts@.len(),
            copy@ == counts@.take(i as int),
        decreases counts@.len() - i,
    {
        copy.push(counts[i]);
        i = i + 1;
    }
    copy
}

/// The sum of the tiles of a leading part of the melds is no larger than
/// that of all.
pub proof fn lemma_meld_total_prefix(melds: Seq<MeldView>, length: int)
    requires
        0 <= length <= melds.len(),
    ensures
        meld_tile_total(melds.take(length)) <= meld_tile_total(melds),
    decreases melds.len() - length,
{
    if length < melds.len() {
        assert(melds.take(length + 1).drop_last() == melds.take(length));
        lemma_meld_total_prefix(melds, length + 1);
    } else {
        assert(melds.take(length) == melds);
    }
}

/// The tiles that a table of 43 counters stands for.
pub fn expand_counts(counts: &Vec<usize>) -> (tiles: Vec<Tile>)
    requires
        counts@.len() == 43,
    ensures
        tiles@ == expand(counters(counts@), 43),
{
    let mut tiles: Vec<Tile> = Vec::new();
    let mut i: usize = 0;
    while i < 43
        invariant
            i <= 43,
            counts@.len() == 43,
            tiles@ == expand(counters(counts@), i as nat),
        decreases 43 - i,
    {
        let tile: Tile = match Tile::from_id(i as u8) {
            Some(tile) => tile,
            None => Tile::Joker,
        };
        let ghost base = tiles@;
        let mut j: usize = 0;
        while j < counts[i as usize]
            invariant
                i < 43,
                counts@.len() == 43,
                j <= counts@[i as int],
                tiles@ == base + Seq::new(j as nat, |k: int| tile),
            decreases counts@[i as int] - j,
        {
            tiles.push(tile);
            j = j + 1;
        }
        i = i + 1;
    }
    tiles
}

impl Default for Hand {
    fn default() -> (hand: Self)
        ensures
            hand@ == HandView::empty(),
            hand@.concealed() == 0,
            hand.wf(),
    {
        Hand::new()
    }
}

} // verus!
