//! Plain forms of tiles for storage and transport: the id, and a record
//! of id, kind and value.

use vstd::prelude::*;
use crate::text::{decimal_string, decimal_text};
use crate::tile::display::{dragon_text, flower_text, wind_text};
use crate::tile::tile::{tile_from_id, tile_id};
use crate::tile::types::{Dragon, Flower, Suit, Tile, Wind};

verus! {

/// The id of a tile.
pub type TileId = u8;

/// A tile as a record of plain fields.
#[derive(Debug, Clone, PartialEq, Eq)]
pub struct TileData {
    /// The id of the tile.
    pub id: TileId,
    /// The kind of the tile, as a word.
    pub kind: String,
    /// The rank of a numbered tile, or the name of any other tile.
    pub value: String,
    /// Whether the tile is a five.
    pub is_red: bool,
}

/// The word for the kind of a tile.
pub open spec fn kind_text(tile: Tile) -> Seq<char> {
    match tile {
        Tile::Suit(Suit::Character, _) => "万子"@,
        Tile::Suit(Suit::Dot, _) => "筒子"@,
        Tile::Suit(Suit::Bamboo, _) => "索子"@,
        Tile::Wind(_) => "风牌"@,
        Tile::Dragon(_) => "三元牌"@,
        Tile::Flower(_) => "花牌"@,
        Tile::Joker => "百搭"@,
    }
}

/// The value of a tile as text: the rank in decimal, or the name.
pub open spec fn value_text(tile: Tile) -> Seq<char> {
    match tile {
        Tile::Suit(_, rank) => decimal_text(rank as nat),
        Tile::Wind(wind) => wind_text(wind),
        Tile::Dragon(dragon) => dragon_text(dragon),
        Tile::Flower(flower) => flower_text(flower),
        Tile::Joker => "百搭"@,
    }
}

/// The id of a well-formed tile.
pub fn to_id(tile: &Tile) -> (id: TileId)
    requires
        tile.wf(),
    ensures
        id == tile_id(*tile),
        id <= 42,
{
    tile.to_id()
}

/// The tile with the given id, if there is one.
pub fn from_id(id: TileId) -> (tile: Option<Tile>)
    ensures
        tile == tile_from_id(id as int),
        tile matches Some(t) ==> t.wf() && tile_id(t) == id,
{
    Tile::from_id(id)
}

/// The record of a well-formed tile.
pub fn to_data(tile: &Tile) -> (data: TileData)
    requires
        tile.wf(),
    ensures
        data.id == tile_id(*tile),
        data.kind@ == kind_text(*tile),
        data.value@ == value_text(*tile),
        data.is_red == (*tile matches Tile::Suit(_, rank) && rank == 5),
{
    let id: TileId = to_id(tile);
    let is_red: bool = tile.is_red();
    match tile {
        Tile::Suit(suit, num) => {
            let kind: &'static str = match suit {
                Suit::Character => "万子",
                Suit::Dot => "筒子",
                Suit::Bamboo => "索子",
            };
            TileData {
                id,
                kind: String::from_str(kind),
                value: decimal_string(*num as usize),
                is_red,
            }
        },
        Tile::Wind(wind) => {
            let value: &'static str = match wind {
                Wind::East => "东",
                Wind::South => "南",
                Wind::West => "西",
                Wind::North => "北",
            };
            TileData { id, kind: String::from_str("风牌"), value: String::from_str(value), is_red }
        },
        Tile::Dragon(dragon) => {
            let value: &'static str = match dragon {
                Dragon::White => "白",
                Dragon::Green => "发",
                Dragon::Red => "中",
            };
            TileData {
                id,
                kind: String::from_str("三元牌"),
                value: String::from_str(value),
                is_red,
            }
        },
        Tile::Flower(flower) => {
            let value: &'static str = match flower {
                Flower::Spring => "春",
                Flower::Summer => "夏",
                Flower::Autumn => "秋",
                Flower::Winter => "冬",
                Flower::Plum => "梅",
                Flower::Orchid => "兰",
                Flower::Bamboo => "竹",
                Flower::Chrysanthemum => "菊",
            };
            TileData { id, kind: String::from_str("花牌"), value: String::from_str(value), is_red }
        },
        Tile::Joker => TileData {
            id,
            kind: String::from_str("百搭"),
            value: String::from_str("百搭"),
            is_red,
        },
    }
}

/// The tile of a record: the tile with the id of the record, whatever
/// the other fields say.
pub fn from_data(data: &TileData) -> (tile: Option<Tile>)
    ensures
        tile == tile_from_id(data.id as int),
{
    from_id(data.id)
}

/// The ids of a list of well-formed tiles, in their order.
pub fn tiles_to_ids(tiles: &[Tile]) -> (ids: Vec<TileId>)
    requires
        forall|i: int| 0 <= i < tiles@.len() ==> (#[trigger] tiles@[i]).wf(),
    ensures
        ids@.len() == tiles@.len(),
        forall|i: int| 0 <= i < tiles@.len() ==> #[trigger] ids@[i] == tile_id(tiles@[i]),
{
    let mut ids: Vec<TileId> = Vec::new();
    let mut i: usize = 0;
    while i < tiles.len()
        invariant
            i <= tiles@.len(),
            ids@.len() == i,
            forall|k: int| 0 <= k < tiles@.len() ==> (#[trigger] tiles@[k]).wf(),
            forall|k: int| 0 <= k < i ==> #[trigger] ids@[k] == tile_id(tiles@[k]),
        decreases tiles@.len() - i,
    {
        ids.push(to_id(&tiles[i]));
        i = i + 1;
    }
    ids
}

/// The tiles of a list of ids, in their order, with nothing in the place
/// of an id that no tile has.
pub fn ids_to_tiles(ids: &[TileId]) -> (tiles: Vec<Option<Tile>>)
    ensures
        tiles@.len() == ids@.len(),
        forall|i: int| 0 <= i < ids@.len() ==> #[trigger] tiles@[i] == tile_from_id(ids@[i] as int),
{
    let mut tiles: Vec<Option<Tile>> = Vec::new();
    let mut i: usize = 0;
    while i < ids.len()
        invariant
            i <= ids@.len(),
            tiles@.len() == i,
            forall|k: int| 0 <= k < i ==> #[trigger] tiles@[k] == tile_from_id(ids@[k] as int),
        decreases ids@.len() - i,
    {
        tiles.push(from_id(ids[i]));
        i = i + 1;
    }
    tiles
}

} // verus!
