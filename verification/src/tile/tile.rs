//! Construction, encoding and classification of tiles.

use vstd::prelude::*;
use crate::tile::types::{Dragon, Flower, Suit, Tile, Wind};

verus! {

/// Offset of a suit's rank-one tile in the encoding.
pub open spec fn suit_base(suit: Suit) -> int {
    match suit {
        Suit::Character => 0,
        Suit::Dot => 9,
        Suit::Bamboo => 18,
    }
}

/// Position of a wind among the winds.
pub open spec fn wind_index(wind: Wind) -> int {
    match wind {
        Wind::East => 0,
        Wind::South => 1,
        Wind::West => 2,
        Wind::North => 3,
    }
}

/// Position of a dragon among the dragons.
pub open spec fn dragon_index(dragon: Dragon) -> int {
    match dragon {
        Dragon::White => 0,
        Dragon::Green => 1,
        Dragon::Red => 2,
    }
}

/// Position of a bonus tile among the bonus tiles.
pub open spec fn flower_index(flower: Flower) -> int {
    match flower {
        Flower::Spring => 0,
        Flower::Summer => 1,
        Flower::Autumn => 2,
        Flower::Winter => 3,
        Flower::Plum => 4,
        Flower::Orchid => 5,
        Flower::Bamboo => 6,
        Flower::Chrysanthemum => 7,
    }
}

/// The dense id of a tile: 0-8 characters, 9-17 dots, 18-26 bamboos, 27-30
/// winds, 31-33 dragons, 34-41 bonus tiles, 42 the wildcard.
pub open spec fn tile_id(tile: Tile) -> int {
    match tile {
        Tile::Suit(suit, rank) => suit_base(suit) + rank - 1,
        Tile::Wind(wind) => 27 + wind_index(wind),
        Tile::Dragon(dragon) => 31 + dragon_index(dragon),
        Tile::Flower(flower) => 34 + flower_index(flower),
        Tile::Joker => 42,
    }
}

/// The suit whose tiles start at `base`.
pub open spec fn suit_at(base: int) -> Suit {
    if base == 0 {
        Suit::Character
    } else if base == 1 {
        Suit::Dot
    } else {
        Suit::Bamboo
    }
}

/// The wind at position `index`.
pub open spec fn wind_at(index: int) -> Wind {
    if index == 0 {
        Wind::East
    } else if index == 1 {
        Wind::South
    } else if index == 2 {
        Wind::West
    } else {
        Wind::North
    }
}

/// The dragon at position `index`.
pub open spec fn dragon_at(index: int) -> Dragon {
    if index == 0 {
        Dragon::White
    } else if index == 1 {
        Dragon::Green
    } else {
        Dragon::Red
    }
}

/// The bonus tile at position `index`.
pub open spec fn flower_at(index: int) -> Flower {
    if index == 0 {
        Flower::Spring
    } else if index == 1 {
        Flower::Summer
    } else if index == 2 {
        Flower::Autumn
    } else if index == 3 {
        Flower::Winter
    } else if index == 4 {
        Flower::Plum
    } else if index == 5 {
        Flower::Orchid
    } else if index == 6 {
        Flower::Bamboo
    } else {
        Flower::Chrysanthemum
    }
}

/// The tile with a given id, for ids from 0 to 42.
pub open spec fn tile_at(id: int) -> Tile {
    if id < 27 {
        Tile::Suit(suit_at(id / 9), (id % 9 + 1) as u8)
    } else if id < 31 {
        Tile::Wind(wind_at(id - 27))
    } else if id < 34 {
        Tile::Dragon(dragon_at(id - 31))
    } else if id < 42 {
        Tile::Flower(flower_at(id - 34))
    } else {
        Tile::Joker
    }
}

/// Decoding of an id: the tile for 0 to 42, nothing beyond.
pub open spec fn tile_from_id(id: int) -> Option<Tile> {
    if 0 <= id <= 42 {
        Some(tile_at(id))
    } else {
        None
    }
}

impl Tile {
    /// A tile is well formed when, if numbered, its rank is from 1 to 9.
    pub open spec fn wf(self) -> bool {
        match self {
            Tile::Suit(_, rank) => 1 <= rank <= 9,
            _ => true,
        }
    }

    /// The id of the tile as a specification value.
    pub open spec fn id(self) -> int {
        tile_id(self)
    }

    /// Whether the tile is one of the thirteen terminals and honors.
    pub open spec fn spec_is_terminal_or_honor(self) -> bool {
        match self {
            Tile::Suit(_, rank) => rank == 1 || rank == 9,
            Tile::Wind(_) => true,
            Tile::Dragon(_) => true,
            _ => false,
        }
    }

    /// Tests `wf` at run time.
    pub fn is_valid(&self) -> (valid: bool)
        ensures
            valid == self.wf(),
    {
        match self {
            Tile::Suit(_, rank) => 1 <= *rank && *rank <= 9,
            _ => true,
        }
    }

    /// A numbered tile, if the rank is from 1 to 9.
    pub fn new_suit(suit: Suit, number: u8) -> (tile: Option<Self>)
        ensures
            tile == if 1 <= number <= 9 {
                Some(Tile::Suit(suit, number))
            } else {
                None
            },
    {
        if 1 <= number && number <= 9 {
            Some(Tile::Suit(suit, number))
        } else {
            None
        }
    }

    /// The tile with the given id, if there is one.
    pub fn from_id(id: u8) -> (tile: Option<Self>)
        ensures
            tile == tile_from_id(id as int),
            tile matches Some(t) ==> t.wf() && tile_id(t) == id,
    {
        if id <= 8 {
            Some(Tile::Suit(Suit::Character, id + 1))
        } else if id <= 17 {
            Some(Tile::Suit(Suit::Dot, id - 9 + 1))
        } else if id <= 26 {
            Some(Tile::Suit(Suit::Bamboo, id - 18 + 1))
        } else if id == 27 {
            Some(Tile::Wind(Wind::East))
        } else if id == 28 {
            Some(Tile::Wind(Wind::South))
        } else if id == 29 {
            Some(Tile::Wind(Wind::West))
        } else if id == 30 {
            Some(Tile::Wind(Wind::North))
        } else if id == 31 {
            Some(Tile::Dragon(Dragon::White))
        } else if id == 32 {
            Some(Tile::Dragon(Dragon::Green))
        } else if id == 33 {
            Some(Tile::Dragon(Dragon::Red))
        } else if id == 34 {
            Some(Tile::Flower(Flower::Spring))
        } else if id == 35 {
            Some(Tile::Flower(Flower::Summer))
        } else if id == 36 {
            Some(Tile::Flower(Flower::Autumn))
        } else if id == 37 {
            Some(Tile::Flower(Flower::Winter))
        } else if id == 38 {
            Some(Tile::Flower(Flower::Plum))
        } else if id == 39 {
            Some(Tile::Flower(Flower::Orchid))
        } else if id == 40 {
            Some(Tile::Flower(Flower::Bamboo))
        } else if id == 41 {
            Some(Tile::Flower(Flower::Chrysanthemum))
        } else if id == 42 {
            Some(Tile::Joker)
        } else {
            None
        }
    }

    /// The id of a well-formed tile.
    pub fn to_id(&self) -> (id: u8)
        requires
            self.wf(),
        ensures
            id == tile_id(*self),
            id <= 42,
    {
        match self {
            Tile::Suit(Suit::Character, n) => *n - 1,
            Tile::Suit(Suit::Dot, n) => 9 + *n - 1,
            Tile::Suit(Suit::Bamboo, n) => 18 + *n - 1,
            Tile::Wind(Wind::East) => 27,
            Tile::Wind(Wind::South) => 28,
            Tile::Wind(Wind::West) => 29,
            Tile::Wind(Wind::North) => 30,
            Tile::Dragon(Dragon::White) => 31,
            Tile::Dragon(Dragon::Green) => 32,
            Tile::Dragon(Dragon::Red) => 33,
            Tile::Flower(Flower::Spring) => 34,
            Tile::Flower(Flower::Summer) => 35,
            Tile::Flower(Flower::Autumn) => 36,
            Tile::Flower(Flower::Winter) => 37,
            Tile::Flower(Flower::Plum) => 38,
            Tile::Flower(Flower::Orchid) => 39,
            Tile::Flower(Flower::Bamboo) => 40,
            Tile::Flower(Flower::Chrysanthemum) => 41,
            Tile::Joker => 42,
        }
    }

    /// Whether the tile is numbered.
    pub fn is_suit(&self) -> (yes: bool)
        ensures
            yes == (*self is Suit),
    {
        match self {
            Tile::Suit(_, _) => true,
            _ => false,
        }
    }

    /// Whether the tile is a wind.
    pub fn is_wind(&self) -> (yes: bool)
        ensures
            yes == (*self is Wind),
    {
        match self {
            Tile::Wind(_) => true,
            _ => false,
        }
    }

    /// Whether the tile is a dragon.
    pub fn is_dragon(&self) -> (yes: bool)
        ensures
            yes == (*self is Dragon),
    {
        match self {
            Tile::Dragon(_) => true,
            _ => false,
        }
    }

    /// Whether the tile is a bonus tile.
    pub fn is_flower(&self) -> (yes: bool)
        ensures
            yes == (*self is Flower),
    {
        match self {
            Tile::Flower(_) => true,
            _ => false,
        }
    }

    /// Whether the tile is a wind or a dragon.
    pub fn is_honor(&self) -> (yes: bool)
        ensures
            yes == (*self is Wind || *self is Dragon),
    {
        self.is_wind() || self.is_dragon()
    }

    /// Whether the tile is the wildcard.
    pub fn is_joker(&self) -> (yes: bool)
        ensures
            yes == (*self is Joker),
    {
        match self {
            Tile::Joker => true,
            _ => false,
        }
    }

    /// Whether the tile is a five, the rank that carries the red marking.
    pub fn is_red(&self) -> (yes: bool)
        ensures
            yes == (*self matches Tile::Suit(_, rank) && rank == 5),
    {
        match self {
            Tile::Suit(_, rank) => *rank == 5,
            _ => false,
        }
    }

    /// Whether the tile is a one or a nine.
    pub fn is_terminal(&self) -> (yes: bool)
        ensures
            yes == (*self matches Tile::Suit(_, rank) && (rank == 1 || rank == 9)),
    {
        match self {
            Tile::Suit(_, rank) => *rank == 1 || *rank == 9,
            _ => false,
        }
    }

    /// Whether the tile is numbered from two to eight.
    pub fn is_simple(&self) -> (yes: bool)
        ensures
            yes == (*self matches Tile::Suit(_, rank) && 2 <= rank <= 8),
    {
        match self {
            Tile::Suit(_, rank) => 2 <= *rank && *rank <= 8,
            _ => false,
        }
    }

    /// Whether the tile is a one, a nine, a wind or a dragon.
    pub fn is_terminal_or_honor(&self) -> (yes: bool)
        ensures
            yes == self.spec_is_terminal_or_honor(),
    {
        self.is_terminal() || self.is_honor()
    }
}

/// Every well-formed tile is found again from its id.
pub proof fn lemma_id_round_trip(tile: Tile)
    requires
        tile.wf(),
    ensures
        0 <= tile_id(tile) <= 42,
        tile_from_id(tile_id(tile)) == Some(tile),
{
}

/// Every id up to 42 is the id of the tile it decodes to.
pub proof fn lemma_tile_at_id(id: int)
    requires
        0 <= id <= 42,
    ensures
        tile_at(id).wf(),
        tile_id(tile_at(id)) == id,
{
}

} // verus!
