//! Legality of melds, and the melds a set of concealed tiles allows.

use vstd::prelude::*;
use crate::errors::{MajiangError, MajiangResult};
use crate::meld::types::{KanType, Meld, MeldSource, MeldType};
use crate::tile::{Suit, Tile};

verus! {

/// The rank of a numbered tile; 0 for every other tile.
pub open spec fn rank_of(tile: Tile) -> int {
    match tile {
        Tile::Suit(_, rank) => rank as int,
        _ => 0,
    }
}

/// The suit of a numbered tile.
pub open spec fn suit_of(tile: Tile) -> Option<Suit> {
    match tile {
        Tile::Suit(suit, _) => Some(suit),
        _ => None,
    }
}

/// The least of three numbers.
pub open spec fn low3(a: int, b: int, c: int) -> int {
    if a <= b && a <= c {
        a
    } else if b <= c {
        b
    } else {
        c
    }
}

/// The greatest of three numbers.
pub open spec fn high3(a: int, b: int, c: int) -> int {
    if a >= b && a >= c {
        a
    } else if b >= c {
        b
    } else {
        c
    }
}

/// The three numbers are, in some order, n, n + 1 and n + 2.
pub open spec fn consecutive3(a: int, b: int, c: int) -> bool {
    high3(a, b, c) == low3(a, b, c) + 2 && a + b + c == 3 * low3(a, b, c) + 3
}

/// Every tile of the list is well formed.
pub open spec fn all_wf(tiles: Seq<Tile>) -> bool {
    forall|i: int| 0 <= i < tiles.len() ==> (#[trigger] tiles[i]).wf()
}

/// Every tile equals the first.
pub open spec fn all_same(tiles: Seq<Tile>) -> bool {
    forall|i: int| 0 <= i < tiles.len() ==> #[trigger] tiles[i] == tiles[0]
}

/// Some tile was claimed from another player.
pub open spec fn has_claimed(sources: Seq<MeldSource>) -> bool {
    exists|i: int| 0 <= i < sources.len() && #[trigger] sources[i] is Player
}

/// One of the first three tiles was claimed from another player: the
/// three are a claimed triple.
pub open spec fn triple_claimed(sources: Seq<MeldSource>) -> bool {
    sources[0] is Player || sources[1] is Player || sources[2] is Player
}

/// Every tile was drawn by the owner.
pub open spec fn all_self_drawn(sources: Seq<MeldSource>) -> bool {
    forall|i: int| 0 <= i < sources.len() ==> #[trigger] sources[i] == MeldSource::SelfDrawn
}

/// What is wrong with the tiles as a run: nothing, or a message. A run is
/// three numbered tiles of one suit with consecutive ranks, in any order.
pub open spec fn chi_fault(tiles: Seq<Tile>) -> Option<Seq<char>> {
    if tiles.len() != 3 {
        Some("吃必须由三张牌组成"@)
    } else if !all_wf(tiles) {
        Some("副露中的牌不合法"@)
    } else if !(tiles[0] is Suit && tiles[1] is Suit && tiles[2] is Suit) {
        Some("吃只能由数牌组成"@)
    } else if !(suit_of(tiles[1]) == suit_of(tiles[0]) && suit_of(tiles[2]) == suit_of(tiles[0])) {
        Some("吃必须是同一花色"@)
    } else if !consecutive3(rank_of(tiles[0]), rank_of(tiles[1]), rank_of(tiles[2])) {
        Some("吃的牌必须是连续的"@)
    } else {
        None
    }
}

/// What is wrong with the tiles as a triple: nothing, or a message.
pub open spec fn pon_fault(tiles: Seq<Tile>) -> Option<Seq<char>> {
    if tiles.len() != 3 {
        Some("碰必须由三张牌组成"@)
    } else if !all_wf(tiles) {
        Some("副露中的牌不合法"@)
    } else if !all_same(tiles) {
        Some("碰必须由三张相同的牌组成"@)
    } else {
        None
    }
}

/// What is wrong with the tiles and their provenance as a quad of the given
/// kind: nothing, or a message. Each of the four tiles has its provenance.
/// An open quad holds a claimed tile and a concealed quad none. An added
/// quad is a claimed triple, its first three tiles, and one tile that the
/// owner added, its last.
pub open spec fn kan_fault(tiles: Seq<Tile>, kan_type: KanType, sources: Seq<MeldSource>) -> Option<
    Seq<char>,
> {
    if tiles.len() != 4 {
        Some("杠必须由四张牌组成"@)
    } else if !all_wf(tiles) {
        Some("副露中的牌不合法"@)
    } else if !all_same(tiles) {
        Some("杠必须由四张相同的牌组成"@)
    } else if sources.len() != 4 {
        Some("杠的每张牌必须有一个来源"@)
    } else {
        match kan_type {
            KanType::Open => if has_claimed(sources) {
                None
            } else {
                Some("明杠必须有一张牌来自其他玩家"@)
            },
            KanType::Closed => if all_self_drawn(sources) {
                None
            } else {
                Some("暗杠的所有牌必须来自自己"@)
            },
            KanType::Added => if sources[3] != MeldSource::SelfDrawn {
                Some("加杠的牌必须来自自己"@)
            } else if !triple_claimed(sources) {
                Some("加杠需要至少有一张牌来自其他玩家"@)
            } else {
                None
            },
        }
    }
}

/// The verdict that goes with a fault: `Ok` for none, else `InvalidMeld`
/// with the message.
pub open spec fn is_verdict(checked: MajiangResult<()>, fault: Option<Seq<char>>) -> bool {
    match fault {
        None => checked is Ok,
        Some(text) => checked matches Err(MajiangError::InvalidMeld(message)) && message@ == text,
    }
}

/// How many times the tile occurs among the tiles.
pub open spec fn occurrences(tiles: Seq<Tile>, tile: Tile) -> nat
    decreases tiles.len(),
{
    if tiles.len() == 0 {
        0
    } else {
        occurrences(tiles.drop_last(), tile) + if tiles.last() == tile {
            1nat
        } else {
            0nat
        }
    }
}

/// The tiles hold the numbered tile of this suit and rank.
pub open spec fn holds(tiles: Seq<Tile>, suit: Suit, rank: int) -> bool {
    1 <= rank <= 9 && tiles.contains(Tile::Suit(suit, rank as u8))
}

/// The tile can be the high end of a run with two of the tiles.
pub open spec fn chi_as_high(tiles: Seq<Tile>, tile: Tile) -> bool {
    tile matches Tile::Suit(suit, rank) && rank >= 3 && holds(tiles, suit, rank - 2) && holds(
        tiles,
        suit,
        rank - 1,
    )
}

/// The tile can be the middle of a run with two of the tiles.
pub open spec fn chi_as_middle(tiles: Seq<Tile>, tile: Tile) -> bool {
    tile matches Tile::Suit(suit, rank) && 2 <= rank <= 8 && holds(tiles, suit, rank - 1) && holds(
        tiles,
        suit,
        rank + 1,
    )
}

/// The tile can be the low end of a run with two of the tiles.
pub open spec fn chi_as_low(tiles: Seq<Tile>, tile: Tile) -> bool {
    tile matches Tile::Suit(suit, rank) && rank <= 7 && holds(tiles, suit, rank + 1) && holds(
        tiles,
        suit,
        rank + 2,
    )
}

/// The numbered tile `offset` ranks away from a numbered tile.
pub open spec fn shifted(tile: Tile, offset: int) -> Tile {
    match tile {
        Tile::Suit(suit, rank) => Tile::Suit(suit, (rank + offset) as u8),
        _ => tile,
    }
}

/// Every run that the tile completes with two of the tiles, each in rank
/// order: first the run that ends with the tile, then the run around it,
/// then the run that starts with it.
pub open spec fn chi_windows(tiles: Seq<Tile>, tile: Tile) -> Seq<Seq<Tile>> {
    let high = if chi_as_high(tiles, tile) {
        seq![seq![shifted(tile, -2), shifted(tile, -1), tile]]
    } else {
        seq![]
    };
    let middle = if chi_as_middle(tiles, tile) {
        seq![seq![shifted(tile, -1), tile, shifted(tile, 1)]]
    } else {
        seq![]
    };
    let low = if chi_as_low(tiles, tile) {
        seq![seq![tile, shifted(tile, 1), shifted(tile, 2)]]
    } else {
        seq![]
    };
    high + middle + low
}

/// The key by which the tiles of a run are sorted: the rank.
pub open spec fn sort_key(tile: Tile) -> int {
    rank_of(tile)
}

/// Position `a` comes before position `b` when the tiles are sorted by key
/// and tiles of one key keep their order.
pub open spec fn precedes(tiles: Seq<Tile>, a: int, b: int) -> bool {
    sort_key(tiles[a]) < sort_key(tiles[b]) || (sort_key(tiles[a]) == sort_key(tiles[b]) && a < b)
}

/// `order` lists each of the first `count` positions of `tiles` so that
/// every position comes before the ones listed after it: the stable sort
/// of the tiles by key.
pub open spec fn is_stable_order(order: Seq<int>, tiles: Seq<Tile>, count: int) -> bool {
    &&& order.len() == count
    &&& forall|i: int| 0 <= i < count ==> 0 <= #[trigger] order[i] < count
    &&& forall|i: int, j: int|
        0 <= i < j < count ==> precedes(tiles, #[trigger] order[i], #[trigger] order[j])
}

/// The number of tiles of a meld that have a provenance.
pub open spec fn paired_count(meld: Meld) -> int {
    if meld.tiles@.len() <= meld.sources@.len() {
        meld.tiles@.len() as int
    } else {
        meld.sources@.len() as int
    }
}

/// `sorted` holds the paired tiles of `meld`, with their provenances, in
/// the stable order `order`.
pub open spec fn is_sorted_from(sorted: Meld, meld: Meld, order: Seq<int>) -> bool {
    &&& is_stable_order(order, meld.tiles@, paired_count(meld))
    &&& sorted.tiles@.len() == paired_count(meld)
    &&& sorted.sources@.len() == paired_count(meld)
    &&& forall|i: int|
        0 <= i < paired_count(meld) ==> #[trigger] sorted.tiles@[i] == meld.tiles@[order[i]]
            && sorted.sources@[i] == meld.sources@[order[i]]
}

/// A copy of a list of tiles.
pub fn copy_tiles(tiles: &Vec<Tile>) -> (copy: Vec<Tile>)
    ensures
        copy@ == tiles@,
{
    let mut copy: Vec<Tile> = Vec::new();
    let mut i: usize = 0;
    while i < tiles.len()
        invariant
            i <= tiles.len(),
            copy@ == tiles@.take(i as int),
        decreases tiles.len() - i,
    {
        copy.push(tiles[i]);
        i = i + 1;
    }
    copy
}

/// A copy of a list of provenances.
pub fn copy_sources(sources: &Vec<MeldSource>) -> (copy: Vec<MeldSource>)
    ensures
        copy@ == sources@,
{
    let mut copy: Vec<MeldSource> = Vec::new();
    let mut i: usize = 0;
    while i < sources.len()
        invariant
            i <= sources.len(),
            copy@ == sources@.take(i as int),
        decreases sources.len() - i,
    {
        copy.push(sources[i]);
        i = i + 1;
    }
    copy
}

/// Whether the tile is among the tiles.
pub fn contains_tile(tiles: &[Tile], tile: Tile) -> (found: bool)
    ensures
        found == tiles@.contains(tile),
{
    let mut i: usize = 0;
    while i < tiles.len()
        invariant
            i <= tiles.len(),
            forall|k: int| 0 <= k < i ==> tiles@[k] != tile,
        decreases tiles.len() - i,
    {
        if tiles[i] == tile {
            return true;
        }
        i = i + 1;
    }
    false
}

/// How many times the tile occurs among the tiles.
pub fn count_tile(tiles: &[Tile], tile: Tile) -> (count: usize)
    ensures
        count == occurrences(tiles@, tile),
{
    let mut count: usize = 0;
    let mut i: usize = 0;
    while i < tiles.len()
        invariant
            i <= tiles.len(),
            count <= i,
            count == occurrences(tiles@.take(i as int), tile),
        decreases tiles.len() - i,
    {
        assert(tiles@.take(i + 1).drop_last() == tiles@.take(i as int));
        if tiles[i] == tile {
            count = count + 1;
        }
        i = i + 1;
    }
    assert(tiles@.take(i as int) == tiles@);
    count
}

/// Whether all the tiles equal the first.
fn same_tiles(tiles: &[Tile]) -> (same: bool)
    ensures
        same == all_same(tiles@),
{
    let mut i: usize = 0;
    while i < tiles.len()
        invariant
            i <= tiles.len(),
            forall|k: int| 0 <= k < i ==> #[trigger] tiles@[k] == tiles@[0],
        decreases tiles.len() - i,
    {
        if !(tiles[i] == tiles[0]) {
            return false;
        }
        i = i + 1;
    }
    true
}

/// Whether some provenance is a claim.
pub fn any_claimed(sources: &[MeldSource]) -> (found: bool)
    ensures
        found == has_claimed(sources@),
{
    let mut i: usize = 0;
    while i < sources.len()
        invariant
            i <= sources.len(),
            forall|k: int| 0 <= k < i ==> !(#[trigger] sources@[k] is Player),
        decreases sources.len() - i,
    {
        match sources[i] {
            MeldSource::Player(_) => {
                return true;
            },
            MeldSource::SelfDrawn => {},
        }
        i = i + 1;
    }
    false
}

/// Whether the provenance is a claim.
fn is_claim(source: MeldSource) -> (claimed: bool)
    ensures
        claimed == (source is Player),
{
    match source {
        MeldSource::Player(_) => true,
        MeldSource::SelfDrawn => false,
    }
}

/// Whether every tile of the list is well formed.
pub fn tiles_valid(tiles: &[Tile]) -> (valid: bool)
    ensures
        valid == all_wf(tiles@),
{
    let mut i: usize = 0;
    while i < tiles.len()
        invariant
            i <= tiles@.len(),
            forall|k: int| 0 <= k < i ==> (#[trigger] tiles@[k]).wf(),
        decreases tiles@.len() - i,
    {
        if !tiles[i].is_valid() {
            return false;
        }
        i = i + 1;
    }
    true
}

/// Whether every provenance is the owner's draw.
fn only_self_drawn(sources: &[MeldSource]) -> (all: bool)
    ensures
        all == all_self_drawn(sources@),
{
    let mut i: usize = 0;
    while i < sources.len()
        invariant
            i <= sources.len(),
            forall|k: int| 0 <= k < i ==> #[trigger] sources@[k] == MeldSource::SelfDrawn,
        decreases sources.len() - i,
    {
        match sources[i] {
            MeldSource::Player(_) => {
                return false;
            },
            MeldSource::SelfDrawn => {},
        }
        i = i + 1;
    }
    true
}

/// The error for an illegal meld.
fn invalid_meld(text: &str) -> (checked: MajiangResult<()>)
    ensures
        checked matches Err(MajiangError::InvalidMeld(message)) && message@ == text@,
{
    Err(MajiangError::InvalidMeld(String::from_str(text)))
}

/// Checks that the tiles are a run. The verdict is that of `chi_fault`.
pub fn validate_chi(tiles: &[Tile]) -> (checked: MajiangResult<()>)
    ensures
        is_verdict(checked, chi_fault(tiles@)),
{
    if tiles.len() != 3 {
        return invalid_meld("吃必须由三张牌组成");
    }
    if !tiles_valid(tiles) {
        return invalid_meld("副露中的牌不合法");
    }
    match (tiles[0], tiles[1], tiles[2]) {
        (Tile::Suit(s0, r0), Tile::Suit(s1, r1), Tile::Suit(s2, r2)) => {
            if !(s1 == s0 && s2 == s0) {
                return invalid_meld("吃必须是同一花色");
            }
            let low: u8 = if r0 <= r1 && r0 <= r2 {
                r0
            } else if r1 <= r2 {
                r1
            } else {
                r2
            };
            let high: u8 = if r0 >= r1 && r0 >= r2 {
                r0
            } else if r1 >= r2 {
                r1
            } else {
                r2
            };
            let sum: u16 = r0 as u16 + r1 as u16 + r2 as u16;
            if high as u16 == low as u16 + 2 && sum == 3 * (low as u16) + 3 {
                Ok(())
            } else {
                invalid_meld("吃的牌必须是连续的")
            }
        },
        _ => invalid_meld("吃只能由数牌组成"),
    }
}

/// Checks that the tiles are a triple. The verdict is that of `pon_fault`.
pub fn validate_pon(tiles: &[Tile]) -> (checked: MajiangResult<()>)
    ensures
        is_verdict(checked, pon_fault(tiles@)),
{
    if tiles.len() != 3 {
        return invalid_meld("碰必须由三张牌组成");
    }
    if !tiles_valid(tiles) {
        return invalid_meld("副露中的牌不合法");
    }
    if !same_tiles(tiles) {
        return invalid_meld("碰必须由三张相同的牌组成");
    }
    Ok(())
}

/// Checks that the tiles are a quad whose provenance fits its kind. The
/// verdict is that of `kan_fault`.
pub fn validate_kan(tiles: &[Tile], kan_type: KanType, sources: &[MeldSource]) -> (checked:
    MajiangResult<()>)
    ensures
        is_verdict(checked, kan_fault(tiles@, kan_type, sources@)),
{
    if tiles.len() != 4 {
        return invalid_meld("杠必须由四张牌组成");
    }
    if !tiles_valid(tiles) {
        return invalid_meld("副露中的牌不合法");
    }
    if !same_tiles(tiles) {
        return invalid_meld("杠必须由四张相同的牌组成");
    }
    if sources.len() != 4 {
        return invalid_meld("杠的每张牌必须有一个来源");
    }
    match kan_type {
        KanType::Open => {
            if !any_claimed(sources) {
                return invalid_meld("明杠必须有一张牌来自其他玩家");
            }
        },
        KanType::Closed => {
            if !only_self_drawn(sources) {
                return invalid_meld("暗杠的所有牌必须来自自己");
            }
        },
        KanType::Added => {
            if is_claim(sources[3]) {
                return invalid_meld("加杠的牌必须来自自己");
            }
            if !(is_claim(sources[0]) || is_claim(sources[1]) || is_claim(sources[2])) {
                return invalid_meld("加杠需要至少有一张牌来自其他玩家");
            }
        },
    }
    Ok(())
}

/// The rank by which a tile is sorted.
fn key_of(tile: Tile) -> (key: u8)
    ensures
        key == sort_key(tile),
{
    match tile {
        Tile::Suit(_, rank) => rank,
        _ => 0,
    }
}

/// The meld with the tiles of a run sorted by rank, each tile keeping its
/// provenance and tiles of one rank their order. Any other meld is
/// returned as it is. Tiles without a provenance, and provenances without
/// a tile, are left out of a sorted run.
pub fn sort_tiles_in_meld(meld: &Meld) -> (sorted: Meld)
    ensures
        sorted.meld_type == meld.meld_type,
        !(meld.meld_type is Chi) ==> sorted.tiles@ == meld.tiles@ && sorted.sources@
            == meld.sources@,
        meld.meld_type is Chi ==> exists|order: Seq<int>| is_sorted_from(sorted, *meld, order),
{
    match meld.meld_type {
        MeldType::Chi => {},
        _ => {
            return meld.duplicate();
        },
    }
    let count: usize = if meld.tiles.len() <= meld.sources.len() {
        meld.tiles.len()
    } else {
        meld.sources.len()
    };
    let mut tiles: Vec<Tile> = Vec::new();
    let mut sources: Vec<MeldSource> = Vec::new();
    let ghost mut order: Seq<int> = Seq::empty();
    let mut i: usize = 0;
    while i < count
        invariant
            i <= count,
            count <= meld.tiles@.len(),
            count <= meld.sources@.len(),
            tiles@.len() == i,
            sources@.len() == i,
            is_stable_order(order, meld.tiles@, i as int),
            forall|k: int|
                0 <= k < i ==> tiles@[k] == meld.tiles@[order[k]] && sources@[k]
                    == meld.sources@[order[k]],
        decreases count - i,
    {
        tiles.push(meld.tiles[i]);
        sources.push(meld.sources[i]);
        proof {
            order = order.push(i as int);
        }
        let mut j: usize = i;
        while j > 0 && key_of(tiles[j - 1]) > key_of(tiles[j])
            invariant
                j <= i,
                i < count,
                count <= meld.tiles@.len(),
                count <= meld.sources@.len(),
                tiles@.len() == i + 1,
                sources@.len() == i + 1,
                order.len() == i + 1,
                order[j as int] == i,
                forall|k: int| 0 <= k <= i ==> 0 <= #[trigger] order[k] <= i,
                forall|k: int| 0 <= k <= i && k != j ==> #[trigger] order[k] < i,
                forall|k: int|
                    0 <= k <= i ==> tiles@[k] == meld.tiles@[order[k]] && sources@[k]
                        == meld.sources@[order[k]],
                forall|a: int, b: int|
                    0 <= a < b <= i && a != j && b != j ==> precedes(
                        meld.tiles@,
                        #[trigger] order[a],
                        #[trigger] order[b],
                    ),
                forall|b: int|
                    j < b <= i ==> precedes(meld.tiles@, order[j as int], #[trigger] order[b]),
            decreases j,
        {
            let tile: Tile = tiles[j];
            let source: MeldSource = sources[j];
            let before_tile: Tile = tiles[j - 1];
            let before_source: MeldSource = sources[j - 1];
            tiles.set(j, before_tile);
            sources.set(j, before_source);
            tiles.set(j - 1, tile);
            sources.set(j - 1, source);
            proof {
                let moved = order[j - 1];
                order = order.update(j as int, moved).update(j - 1, i as int);
            }
            j = j - 1;
        }
        i = i + 1;
    }
    let sorted = Meld { tiles, meld_type: MeldType::Chi, sources };
    assert(is_sorted_from(sorted, *meld, order));
    sorted
}

/// Whether the tile completes a run with two of the tiles.
pub fn can_form_chi(hand_tiles: &[Tile], discarded_tile: Tile) -> (can: bool)
    ensures
        can == (chi_as_high(hand_tiles@, discarded_tile) || chi_as_middle(
            hand_tiles@,
            discarded_tile,
        ) || chi_as_low(hand_tiles@, discarded_tile)),
{
    match discarded_tile {
        Tile::Suit(suit, number) => {
            if number >= 3 && number <= 11 && number - 1 <= 9 {
                if contains_tile(hand_tiles, Tile::Suit(suit, number - 2)) && contains_tile(
                    hand_tiles,
                    Tile::Suit(suit, number - 1),
                ) {
                    return true;
                }
            }
            if number >= 2 && number <= 8 {
                if contains_tile(hand_tiles, Tile::Suit(suit, number - 1)) && contains_tile(
                    hand_tiles,
                    Tile::Suit(suit, number + 1),
                ) {
                    return true;
                }
            }
            if number <= 7 {
                if contains_tile(hand_tiles, Tile::Suit(suit, number + 1)) && contains_tile(
                    hand_tiles,
                    Tile::Suit(suit, number + 2),
                ) {
                    return true;
                }
            }
            false
        },
        _ => false,
    }
}

/// Whether two of the tiles equal the tile, so that it completes a triple.
pub fn can_form_pon(hand_tiles: &[Tile], discarded_tile: Tile) -> (can: bool)
    ensures
        can == (occurrences(hand_tiles@, discarded_tile) >= 2),
{
    count_tile(hand_tiles, discarded_tile) >= 2
}

/// Whether three of the tiles equal the tile, so that it completes a quad.
/// The tiles are those held beside the tile, whether it was drawn or
/// claimed.
pub fn can_form_kan(hand_tiles: &[Tile], discarded_tile: Tile, is_self_drawn: bool) -> (can: bool)
    ensures
        can == (occurrences(hand_tiles@, discarded_tile) >= 3),
{
    count_tile(hand_tiles, discarded_tile) >= 3
}

/// A list of three tiles.
fn triple_of(a: Tile, b: Tile, c: Tile) -> (tiles: Vec<Tile>)
    ensures
        tiles@ == seq![a, b, c],
{
    let mut tiles: Vec<Tile> = Vec::new();
    tiles.push(a);
    tiles.push(b);
    tiles.push(c);
    tiles
}

/// Every run that the tile completes with two of the tiles: the runs of
/// `chi_windows`, in that order.
pub fn get_possible_chi_combinations(hand_tiles: &[Tile], discarded_tile: Tile) -> (combinations:
    Vec<Vec<Tile>>)
    ensures
        combinations@.len() == chi_windows(hand_tiles@, discarded_tile).len(),
        forall|i: int|
            0 <= i < combinations@.len() ==> (#[trigger] combinations@[i])@ == chi_windows(
                hand_tiles@,
                discarded_tile,
            )[i],
{
    let mut combinations: Vec<Vec<Tile>> = Vec::new();
    match discarded_tile {
        Tile::Suit(suit, number) => {
            if number >= 3 && number <= 11 && number - 1 <= 9 {
                let n1 = Tile::Suit(suit, number - 2);
                let n2 = Tile::Suit(suit, number - 1);
                if contains_tile(hand_tiles, n1) && contains_tile(hand_tiles, n2) {
                    combinations.push(triple_of(n1, n2, discarded_tile));
                }
            }
            if number >= 2 && number <= 8 {
                let n1 = Tile::Suit(suit, number - 1);
                let n2 = Tile::Suit(suit, number + 1);
                if contains_tile(hand_tiles, n1) && contains_tile(hand_tiles, n2) {
                    combinations.push(triple_of(n1, discarded_tile, n2));
                }
            }
            if number <= 7 {
                let n1 = Tile::Suit(suit, number + 1);
                let n2 = Tile::Suit(suit, number + 2);
                if contains_tile(hand_tiles, n1) && contains_tile(hand_tiles, n2) {
                    combinations.push(triple_of(discarded_tile, n1, n2));
                }
            }
        },
        _ => {},
    }
    combinations
}

/// How many tiles of a quad equal the tile; 0 for a meld that is no quad.
pub fn get_kan_tile_count(meld: &Meld, tile: Tile) -> (count: usize)
    ensures
        count == if meld.meld_type is Kan {
            occurrences(meld.tiles@, tile)
        } else {
            0
        },
{
    match meld.meld_type {
        MeldType::Kan(_) => count_tile(meld.tiles.as_slice(), tile),
        _ => 0,
    }
}

/// The tiles of a quad; nothing for a meld that is no quad.
pub fn get_kan_tiles(meld: &Meld) -> (tiles: Option<Vec<Tile>>)
    ensures
        meld.meld_type is Kan ==> (tiles matches Some(list) && list@ == meld.tiles@),
        !(meld.meld_type is Kan) ==> tiles is None,
{
    match meld.meld_type {
        MeldType::Kan(_) => Some(copy_tiles(&meld.tiles)),
        _ => None,
    }
}

} // verus!
