//! The actions a player can take, and what an action results in.

use vstd::prelude::*;
use crate::tile::Tile;

verus! {

/// A quad to be declared, by the way it is made.
#[derive(Debug, Clone, Copy, PartialEq, Eq, Hash, Structural)]
pub enum KanType {
    /// Four concealed copies of the tile.
    Closed(Tile),
    /// The tile added to a declared triple.
    Added(Tile),
    /// Three concealed copies and the discarded tile.
    Open(Tile),
}

impl KanType {
    /// The tile of the quad.
    pub open spec fn spec_tile(self) -> Tile {
        match self {
            KanType::Closed(tile) => tile,
            KanType::Added(tile) => tile,
            KanType::Open(tile) => tile,
        }
    }

    /// The tile of the quad.
    pub fn tile(&self) -> (tile: Tile)
        ensures
            tile == self.spec_tile(),
    {
        match self {
            KanType::Closed(tile) => *tile,
            KanType::Added(tile) => *tile,
            KanType::Open(tile) => *tile,
        }
    }
}

/// What a player can do.
#[derive(Debug, Clone, Copy, PartialEq, Eq, Hash, Structural)]
pub enum Action {
    /// Discard the tile.
    Discard(Tile),
    /// Claim a discard for the run of the three tiles.
    Chi(Tile, Tile, Tile),
    /// Claim the discarded tile for a triple.
    Pon(Tile),
    /// Declare a quad.
    Kan(KanType),
    /// Declare ready, discarding the tile.
    Riichi(Tile),
    /// Win on the tile just drawn.
    Tsumo,
    /// Win on the discarded tile.
    Ron(Tile),
    /// Do nothing.
    Pass,
}

/// An action of a player in a seat.
#[derive(Debug, Clone, Copy, PartialEq, Eq, Structural)]
pub struct ActionEvent {
    pub player_index: usize,
    pub action: Action,
}

/// The result of carrying out an action.
#[derive(Debug, Clone, PartialEq)]
pub struct ActionResult {
    /// Whether the action was carried out.
    pub success: bool,
    /// What there is to say about it.
    pub message: Option<String>,
}

impl ActionResult {
    /// The result of an action that was carried out.
    pub fn success(message: Option<String>) -> (result: Self)
        ensures
            result.success,
            result.message == message,
    {
        ActionResult { success: true, message }
    }

    /// The result of an action that failed, with the reason.
    pub fn failure(message: String) -> (result: Self)
        ensures
            !result.success,
            result.message == Some(message),
    {
        ActionResult { success: false, message: Some(message) }
    }
}

} // verus!
