//! The set of tiles of a wall, and its shuffling.

use vstd::prelude::*;
use rand::rngs::StdRng;
use rand::seq::SliceRandom;
use rand::SeedableRng;
use crate::errors::{MajiangError, MajiangResult};
use crate::tile::tile::flower_at;
use crate::tile::{Dragon, Flower, Suit, Tile, Wind};

verus! {

/// The generator of random numbers that shuffles a wall.
#[verifier::external_type_specification]
#[verifier::external_body]
pub struct ExStdRng(StdRng);

/// Which tiles a wall is made of.
#[derive(Debug, Clone, Copy, PartialEq, Eq, Structural)]
pub enum WallConfig {
    /// Four sets of the numbered tiles and of the honors: 136 tiles.
    Riichi,
    /// The same and the eight bonus tiles: 144 tiles.
    MCR,
    /// The same as `MCR`, with the wildcard if asked for.
    Shanghai { with_joker: bool },
    /// As many sets and bonus tiles as given.
    Custom { flowers: u8, with_joker: bool, suit_sets: u8, honor_sets: u8 },
}

impl Default for WallConfig {
    fn default() -> (config: Self)
        ensures
            config == WallConfig::MCR,
    {
        WallConfig::MCR
    }
}

/// `count` copies of a tile.
pub open spec fn repeat(tile: Tile, count: nat) -> Seq<Tile> {
    Seq::new(count, |k: int| tile)
}

/// The nine tiles of a suit in the order of their ranks.
pub open spec fn ranks(suit: Suit) -> Seq<Tile> {
    Seq::new(9, |k: int| Tile::Suit(suit, (k + 1) as u8))
}

/// `count` sets of the tiles of a suit, one after the other.
pub open spec fn suit_sets(suit: Suit, count: nat) -> Seq<Tile>
    decreases count,
{
    if count == 0 {
        Seq::empty()
    } else {
        suit_sets(suit, (count - 1) as nat) + ranks(suit)
    }
}

/// The numbered tiles of a wall: the sets of characters, of dots and of
/// bamboos.
pub open spec fn suit_tiles(sets: nat) -> Seq<Tile> {
    suit_sets(Suit::Character, sets) + suit_sets(Suit::Dot, sets) + suit_sets(Suit::Bamboo, sets)
}

/// The honors of a wall: the copies of each wind, east first, then the
/// copies of each dragon, red first.
pub open spec fn honor_tiles(sets: nat) -> Seq<Tile> {
    repeat(Tile::Wind(Wind::East), sets) + repeat(Tile::Wind(Wind::South), sets) + repeat(
        Tile::Wind(Wind::West),
        sets,
    ) + repeat(Tile::Wind(Wind::North), sets) + repeat(Tile::Dragon(Dragon::Red), sets) + repeat(
        Tile::Dragon(Dragon::Green),
        sets,
    ) + repeat(Tile::Dragon(Dragon::White), sets)
}

/// The first `count` bonus tiles.
pub open spec fn flower_tiles(count: nat) -> Seq<Tile> {
    Seq::new(count, |k: int| Tile::Flower(flower_at(k)))
}

/// The wildcard, if asked for.
pub open spec fn joker_tiles(with_joker: bool) -> Seq<Tile> {
    if with_joker {
        seq![Tile::Joker]
    } else {
        seq![]
    }
}

/// The tiles of a wall with the given numbers of sets and bonus tiles:
/// numbered tiles, honors, bonus tiles, wildcard.
pub open spec fn custom_tiles(flowers: nat, with_joker: bool, suits: nat, honors: nat) -> Seq<Tile> {
    suit_tiles(suits) + honor_tiles(honors) + flower_tiles(flowers) + joker_tiles(with_joker)
}

/// The tiles of a wall before it is shuffled; nothing for a wall that
/// asks for more than the eight bonus tiles.
pub open spec fn tile_set(config: WallConfig) -> Option<Seq<Tile>> {
    match config {
        WallConfig::Riichi => Some(custom_tiles(0, false, 4, 4)),
        WallConfig::MCR => Some(custom_tiles(8, false, 4, 4)),
        WallConfig::Shanghai { with_joker } => Some(custom_tiles(8, with_joker, 4, 4)),
        WallConfig::Custom { flowers, with_joker, suit_sets, honor_sets } => if flowers > 8 {
            None
        } else {
            Some(custom_tiles(flowers as nat, with_joker, suit_sets as nat, honor_sets as nat))
        },
    }
}

/// The number of tiles of a wall with the given numbers of sets and
/// bonus tiles.
pub open spec fn custom_size(flowers: nat, with_joker: bool, suits: nat, honors: nat) -> nat {
    27 * suits + 7 * honors + flowers + if with_joker {
        1nat
    } else {
        0nat
    }
}

/// Sets of a suit are nine tiles each.
pub proof fn lemma_suit_sets_len(suit: Suit, count: nat)
    ensures
        suit_sets(suit, count).len() == 9 * count,
    decreases count,
{
    if count > 0 {
        lemma_suit_sets_len(suit, (count - 1) as nat);
    }
}

/// A wall has as many tiles as its sets and bonus tiles make.
pub proof fn lemma_custom_size(flowers: nat, with_joker: bool, suits: nat, honors: nat)
    ensures
        custom_tiles(flowers, with_joker, suits, honors).len() == custom_size(
            flowers,
            with_joker,
            suits,
            honors,
        ),
{
    lemma_suit_sets_len(Suit::Character, suits);
    lemma_suit_sets_len(Suit::Dot, suits);
    lemma_suit_sets_len(Suit::Bamboo, suits);
}

/// Every tile of sets of a suit is well formed.
pub proof fn lemma_suit_sets_wf(suit: Suit, count: nat)
    ensures
        forall|i: int| 0 <= i < suit_sets(suit, count).len() ==> (#[trigger] suit_sets(suit, count)[i]).wf(),
    decreases count,
{
    if count > 0 {
        lemma_suit_sets_wf(suit, (count - 1) as nat);
        assert(suit_sets(suit, count) == suit_sets(suit, (count - 1) as nat) + ranks(suit));
    }
}

/// Every tile of a wall is well formed.
pub proof fn lemma_tile_set_wf(config: WallConfig)
    requires
        tile_set(config) is Some,
    ensures
        forall|i: int|
            0 <= i < tile_set(config).unwrap().len() ==> (#[trigger] tile_set(config).unwrap()[i]).wf(),
{
    let (flowers, with_joker, suits, honors): (nat, bool, nat, nat) = match config {
        WallConfig::Riichi => (0, false, 4, 4),
        WallConfig::MCR => (8, false, 4, 4),
        WallConfig::Shanghai { with_joker } => (8, with_joker, 4, 4),
        WallConfig::Custom { flowers, with_joker, suit_sets, honor_sets } => (
            flowers as nat,
            with_joker,
            suit_sets as nat,
            honor_sets as nat,
        ),
    };
    lemma_suit_sets_wf(Suit::Character, suits);
    lemma_suit_sets_wf(Suit::Dot, suits);
    lemma_suit_sets_wf(Suit::Bamboo, suits);
}

/// Tiles that are those of a wall, each as often, are well formed.
pub proof fn lemma_shuffled_wf(tiles: Seq<Tile>, config: WallConfig)
    requires
        tile_set(config) is Some,
        tiles.to_multiset() == tile_set(config).unwrap().to_multiset(),
    ensures
        tiles.len() == tile_set(config).unwrap().len(),
        forall|i: int| 0 <= i < tiles.len() ==> (#[trigger] tiles[i]).wf(),
{
    let set = tile_set(config).unwrap();
    lemma_tile_set_wf(config);
    tiles.to_multiset_ensures();
    set.to_multiset_ensures();
    assert forall|i: int| 0 <= i < tiles.len() implies (#[trigger] tiles[i]).wf() by {
        assert(set.to_multiset().count(tiles[i]) > 0);
    }
}

/// Adds to the tiles `sets` sets of each suit.
fn add_suit_tiles(tiles: &mut Vec<Tile>, sets: u8)
    ensures
        final(tiles)@ == old(tiles)@ + suit_tiles(sets as nat),
{
    add_sets_of(tiles, Suit::Character, sets);
    add_sets_of(tiles, Suit::Dot, sets);
    add_sets_of(tiles, Suit::Bamboo, sets);
}

/// Adds to the tiles `sets` sets of one suit.
fn add_sets_of(tiles: &mut Vec<Tile>, suit: Suit, sets: u8)
    ensures
        final(tiles)@ == old(tiles)@ + suit_sets(suit, sets as nat),
{
    let ghost start = tiles@;
    let mut done: u8 = 0;
    while done < sets
        invariant
            done <= sets,
            tiles@ == start + suit_sets(suit, done as nat),
        decreases sets - done,
    {
        let ghost before = tiles@;
        let mut n: u8 = 1;
        while n <= 9
            invariant
                1 <= n <= 10,
                tiles@ == before + ranks(suit).take(n - 1),
            decreases 10 - n,
        {
            tiles.push(Tile::Suit(suit, n));
            n = n + 1;
        }
        done = done + 1;
    }
}

/// Adds to the tiles `count` copies of a tile.
fn add_copies(tiles: &mut Vec<Tile>, tile: Tile, count: u8)
    ensures
        final(tiles)@ == old(tiles)@ + repeat(tile, count as nat),
{
    let ghost start = tiles@;
    let mut done: u8 = 0;
    while done < count
        invariant
            done <= count,
            tiles@ == start + repeat(tile, done as nat),
        decreases count - done,
    {
        tiles.push(tile);
        done = done + 1;
    }
}

/// Adds to the tiles `sets` copies of each honor.
fn add_honor_tiles(tiles: &mut Vec<Tile>, sets: u8)
    ensures
        final(tiles)@ == old(tiles)@ + honor_tiles(sets as nat),
{
    add_copies(tiles, Tile::Wind(Wind::East), sets);
    add_copies(tiles, Tile::Wind(Wind::South), sets);
    add_copies(tiles, Tile::Wind(Wind::West), sets);
    add_copies(tiles, Tile::Wind(Wind::North), sets);
    add_copies(tiles, Tile::Dragon(Dragon::Red), sets);
    add_copies(tiles, Tile::Dragon(Dragon::Green), sets);
    add_copies(tiles, Tile::Dragon(Dragon::White), sets);
}

/// The bonus tile at a place among the bonus tiles.
fn flower_number(index: u8) -> (flower: Flower)
    ensures
        flower == flower_at(index as int),
{
    if index == 0 {
        Flower::Spring
    } else if index == 1 {
        Flower::Summer
    } else if index == 2 {
        Flower::Autumn
    } else if index == 3 {
        Flower::Winter
    } else if index == 4 {
        Flower::Plum
    } else if index == 5 {
        Flower::Orchid
    } else if index == 6 {
        Flower::Bamboo
    } else {
        Flower::Chrysanthemum
    }
}

/// Adds to the tiles the first `count` bonus tiles.
fn add_partial_flower_tiles(tiles: &mut Vec<Tile>, count: u8)
    ensures
        final(tiles)@ == old(tiles)@ + flower_tiles(count as nat),
{
    let ghost start = tiles@;
    let mut done: u8 = 0;
    while done < count
        invariant
            done <= count,
            tiles@ == start + flower_tiles(done as nat),
        decreases count - done,
    {
        tiles.push(Tile::Flower(flower_number(done)));
        done = done + 1;
    }
}

/// The tiles of a wall made to measure.
fn build_custom_tiles(flowers: u8, with_joker: bool, suit_sets: u8, honor_sets: u8) -> (built:
    MajiangResult<Vec<Tile>>)
    ensures
        flowers > 8 ==> built matches Err(MajiangError::ConfigurationError(_)),
        flowers <= 8 ==> (built matches Ok(tiles) && tiles@ == custom_tiles(
            flowers as nat,
            with_joker,
            suit_sets as nat,
            honor_sets as nat,
        )),
{
    if flowers > 8 {
        return Err(MajiangError::ConfigurationError(String::from_str("花牌数量不能超过8张")));
    }
    let mut tiles: Vec<Tile> = Vec::new();
    add_suit_tiles(&mut tiles, suit_sets);
    add_honor_tiles(&mut tiles, honor_sets);
    add_partial_flower_tiles(&mut tiles, flowers);
    if with_joker {
        tiles.push(Tile::Joker);
    }
    Ok(tiles)
}

/// The tiles of the wall of the Japanese variant.
fn build_riichi_tiles() -> (built: MajiangResult<Vec<Tile>>)
    ensures
        built matches Ok(tiles) && tiles@ == custom_tiles(0, false, 4, 4),
{
    build_custom_tiles(0, false, 4, 4)
}

/// The tiles of the wall of the competition rules.
fn build_mcr_tiles() -> (built: MajiangResult<Vec<Tile>>)
    ensures
        built matches Ok(tiles) && tiles@ == custom_tiles(8, false, 4, 4),
{
    build_custom_tiles(8, false, 4, 4)
}

/// The tiles of the wall of the Shanghai variant.
fn build_shanghai_tiles(with_joker: bool) -> (built: MajiangResult<Vec<Tile>>)
    ensures
        built matches Ok(tiles) && tiles@ == custom_tiles(8, with_joker, 4, 4),
{
    build_custom_tiles(8, with_joker, 4, 4)
}

/// The tiles of a wall in their order before shuffling. A wall that asks
/// for more than the eight bonus tiles is refused.
pub fn build_tiles(config: WallConfig) -> (built: MajiangResult<Vec<Tile>>)
    ensures
        match tile_set(config) {
            Some(set) => built matches Ok(tiles) && tiles@ == set,
            None => built matches Err(MajiangError::ConfigurationError(_)),
        },
{
    match config {
        WallConfig::Riichi => build_riichi_tiles(),
        WallConfig::MCR => build_mcr_tiles(),
        WallConfig::Shanghai { with_joker } => build_shanghai_tiles(with_joker),
        WallConfig::Custom { flowers, with_joker, suit_sets, honor_sets } => build_custom_tiles(
            flowers,
            with_joker,
            suit_sets,
            honor_sets,
        ),
    }
}

/// `SeedableRng::seed_from_u64` for `StdRng`: a generator that the seed
/// decides. Nothing is claimed of it.
#[verifier::external_body]
pub(crate) fn seeded_rng(seed: u64) -> StdRng {
    StdRng::seed_from_u64(seed)
}

/// `SeedableRng::from_entropy` for `StdRng`: a generator seeded by the
/// operating system. Nothing is claimed of it.
#[verifier::external_body]
pub(crate) fn fresh_rng() -> StdRng {
    StdRng::from_entropy()
}

/// `SliceRandom::shuffle` on the tiles: it swaps tiles, so the tiles are
/// the same afterwards, each as often as before, in an order that
/// nothing is claimed of.
#[verifier::external_body]
pub fn shuffle_tiles(tiles: &mut Vec<Tile>, rng: &mut StdRng)
    ensures
        final(tiles)@.to_multiset() == old(tiles)@.to_multiset(),
{
    tiles.shuffle(rng);
}

/// The tiles of a wall, shuffled: with the seed's generator if a seed is
/// given, else with a fresh one.
pub fn create_shuffled_tiles(config: WallConfig, seed: Option<u64>) -> (built: MajiangResult<
    Vec<Tile>,
>)
    ensures
        match tile_set(config) {
            Some(set) => built matches Ok(tiles) && tiles@.to_multiset() == set.to_multiset()
                && tiles@.len() == set.len() && forall|i: int|
                0 <= i < tiles@.len() ==> (#[trigger] tiles@[i]).wf(),
            None => built matches Err(MajiangError::ConfigurationError(_)),
        },
{
    let mut tiles: Vec<Tile> = match build_tiles(config) {
        Ok(tiles) => tiles,
        Err(error) => {
            return Err(error);
        },
    };
    let mut rng: StdRng = match seed {
        Some(seed_value) => seeded_rng(seed_value),
        None => fresh_rng(),
    };
    shuffle_tiles(&mut tiles, &mut rng);
    proof {
        lemma_shuffled_wf(tiles@, config);
    }
    Ok(tiles)
}

} // verus!
