//! Tiles: the thirty-four playing identities, the eight bonus tiles and the
//! wildcard, with their dense integer encoding.

pub mod display;
pub mod serialization;
pub mod tile;
pub mod types;

pub use display::{ColorStyle, ColoredTileDisplay, DisplayStyle, TileDisplay, TileGrid};
pub use serialization::{
    from_data, from_id, ids_to_tiles, tiles_to_ids, to_data, to_id, TileData, TileId,
};
pub use types::{Dragon, Flower, Suit, Tile, Wind};
