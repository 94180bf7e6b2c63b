//! The tile enums and the constants of the integer encoding.

use vstd::prelude::*;

verus! {

/// The three numbered suits.
#[derive(Debug, Clone, Copy, PartialEq, Eq, Hash, Structural)]
pub enum Suit {
    Character,
    Dot,
    Bamboo,
}

impl Default for Suit {
    fn default() -> (suit: Self)
        ensures
            suit == Suit::Character,
    {
        Suit::Character
    }
}

/// The four winds.
#[derive(Debug, Clone, Copy, PartialEq, Eq, Hash, Structural)]
pub enum Wind {
    East,
    South,
    West,
    North,
}

impl Default for Wind {
    fn default() -> (wind: Self)
        ensures
            wind == Wind::East,
    {
        Wind::East
    }
}

/// The three dragons.
#[derive(Debug, Clone, Copy, PartialEq, Eq, Hash, Structural)]
pub enum Dragon {
    White,
    Green,
    Red,
}

impl Default for Dragon {
    fn default() -> (dragon: Self)
        ensures
            dragon == Dragon::White,
    {
        Dragon::White
    }
}

/// The eight bonus tiles: four seasons and four plants.
#[derive(Debug, Clone, Copy, PartialEq, Eq, Hash, Structural)]
pub enum Flower {
    Spring,
    Summer,
    Autumn,
    Winter,
    Plum,
    Orchid,
    Bamboo,
    Chrysanthemum,
}

impl Default for Flower {
    fn default() -> (flower: Self)
        ensures
            flower == Flower::Spring,
    {
        Flower::Spring
    }
}

/// One tile. A numbered tile carries its suit and its rank, which is
/// between 1 and 9 in every tile that `is_valid`.
#[derive(Debug, Clone, Copy, PartialEq, Eq, Hash, Structural)]
pub enum Tile {
    Suit(Suit, u8),
    Wind(Wind),
    Dragon(Dragon),
    Flower(Flower),
    Joker,
}

impl Default for Tile {
    fn default() -> (tile: Self)
        ensures
            tile == Tile::Suit(Suit::Character, 1),
    {
        Tile::Suit(Suit::Character, 1)
    }
}

/// Id of the one of characters.
pub const CHARACTER_START: u8 = 0;

/// Id of the one of dots.
pub const DOT_START: u8 = 9;

/// Id of the one of bamboos.
pub const BAMBOO_START: u8 = 18;

/// Id of the east wind.
pub const WIND_START: u8 = 27;

/// Id of the white dragon.
pub const DRAGON_START: u8 = 31;

/// Id of the first bonus tile.
pub const FLOWER_START: u8 = 34;

/// Largest id of an honor tile.
pub const MAX_HONOR_ID: u8 = 33;

/// Largest id of a bonus tile.
pub const MAX_FLOWER_ID: u8 = 41;

/// Id of the wildcard.
pub const JOKER_ID: u8 = 42;

/// Id of the five of characters, the tile that may be printed in red.
pub const RED_MAN5_ID: u8 = 4;

/// Id of the five of dots, the tile that may be printed in red.
pub const RED_PIN5_ID: u8 = 13;

/// Id of the five of bamboos, the tile that may be printed in red.
pub const RED_SOU5_ID: u8 = 22;

/// Number of identities that take part in winning shapes.
pub const SHAPE_KINDS: usize = 34;

/// Number of identities in all, bonus tiles and wildcard included.
pub const TILE_KINDS: usize = 43;

} // verus!
