//! The seat winds and the state of one player.

use vstd::prelude::*;
use crate::hand::representation::{Hand, HandView};
use crate::tile::tile::tile_id;
use crate::tile::{Tile, Wind};

verus! {

/// The wind of a seat or of a round.
#[derive(Debug, Clone, Copy, PartialEq, Eq, Structural)]
pub enum WindDirection {
    East,
    South,
    West,
    North,
}

/// The name of a wind direction.
pub open spec fn direction_text(direction: WindDirection) -> Seq<char> {
    match direction {
        WindDirection::East => "东"@,
        WindDirection::South => "南"@,
        WindDirection::West => "西"@,
        WindDirection::North => "北"@,
    }
}

/// The wind tile of a direction.
pub open spec fn direction_wind(direction: WindDirection) -> Wind {
    match direction {
        WindDirection::East => Wind::East,
        WindDirection::South => Wind::South,
        WindDirection::West => Wind::West,
        WindDirection::North => Wind::North,
    }
}

impl WindDirection {
    /// The name of the direction.
    pub fn to_string(&self) -> (text: String)
        ensures
            text@ == direction_text(*self),
    {
        match self {
            WindDirection::East => String::from_str("东"),
            WindDirection::South => String::from_str("南"),
            WindDirection::West => String::from_str("西"),
            WindDirection::North => String::from_str("北"),
        }
    }

    /// The wind tile of the direction.
    pub fn wind(&self) -> (wind: Wind)
        ensures
            wind == direction_wind(*self),
    {
        match self {
            WindDirection::East => Wind::East,
            WindDirection::South => Wind::South,
            WindDirection::West => Wind::West,
            WindDirection::North => Wind::North,
        }
    }

    /// The id of the wind tile of the direction.
    pub fn tile_id(&self) -> (id: usize)
        ensures
            id == crate::tile::tile::tile_id(crate::tile::Tile::Wind(direction_wind(*self))),
            27 <= id <= 30,
    {
        match self {
            WindDirection::East => 27,
            WindDirection::South => 28,
            WindDirection::West => 29,
            WindDirection::North => 30,
        }
    }
}

/// The state of one player.
#[derive(Debug, Clone)]
pub struct Player {
    /// The seat of the player, from 0 to 3.
    pub id: usize,
    /// The hand of the player.
    pub hand: Hand,
    /// The points of the player.
    pub score: i32,
    /// The tiles the player has discarded, oldest first.
    pub discards: Vec<Tile>,
    /// Whether the player has declared ready.
    pub is_riichi: bool,
    /// The wind of the seat.
    pub wind: WindDirection,
}

impl Player {
    /// A player with an empty hand and no discards.
    pub fn new(id: usize, initial_score: i32, wind: WindDirection) -> (player: Self)
        ensures
            player.id == id,
            player.score == initial_score,
            player.wind == wind,
            player.hand@ == HandView::empty(),
            player.hand.wf(),
            player.discards@ == Seq::<Tile>::empty(),
            !player.is_riichi,
    {
        Player { id, hand: Hand::new(), score: initial_score, discards: Vec::new(), is_riichi: false, wind }
    }

    /// Discards a tile: the drawn tile if that is the tile, else a
    /// concealed copy. The tile goes to the end of the discards. If the
    /// hand holds no such tile nothing changes and the call is refused
    /// with a message.
    pub fn discard_tile(&mut self, tile: Tile) -> (done: Result<(), String>)
        requires
            old(self).hand.wf(),
        ensures
            final(self).hand.wf(),
            final(self).id == old(self).id,
            final(self).score == old(self).score,
            final(self).is_riichi == old(self).is_riichi,
            final(self).wind == old(self).wind,
            old(self).hand@.holds(tile) ==> done is Ok && final(self).hand@ == old(
                self,
            ).hand@.discard(tile) && final(self).discards@ == old(self).discards@.push(tile),
            !old(self).hand@.holds(tile) ==> done is Err && final(self).hand@ == old(self).hand@
                && final(self).discards@ == old(self).discards@,
    {
        if self.hand.is_drawn_tile(&tile) {
            self.hand.set_drawn_tile(None);
            self.discards.push(tile);
            Ok(())
        } else if self.hand.remove_closed_tile(&tile) {
            self.discards.push(tile);
            Ok(())
        } else {
            Err(String::from_str("Tile not found in hand or drawn tile for discard"))
        }
    }
}

} // verus!
