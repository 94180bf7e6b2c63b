//! The facts about a game that the scoring of a hand depends on.

use vstd::prelude::*;
use crate::player::model::WindDirection;

use crate::tile::{Dragon, Suit, Tile, Wind};

verus! {

/// What the scoring of a hand needs to know of the game. It is built
/// once for an evaluation and handed in; nothing is kept.
#[derive(Debug, Clone)]
pub struct GameContext {
    /// The wind of the seat of the player.
    pub player_wind: WindDirection,
    /// The wind of the round.
    pub round_wind: WindDirection,
    /// The bonus tiles that the indicators point to.
    pub dora: Vec<Tile>,
    /// The seat whose turn it is: the seat of the player.
    pub current_turn: usize,
    /// The seat of the dealer.
    pub dealer_index: usize,
    /// Whether the hand was completed by the player's own draw.
    pub is_tsumo: bool,
    /// Whether the player has declared ready.
    pub is_riichi: bool,
    /// The points of the player.
    pub score: i32,
    /// The tiles left in the wall.
    pub wall_remaining: usize,
}

/// A context as plain values.
pub struct ContextView {
    pub player_wind: WindDirection,
    pub round_wind: WindDirection,
    pub dora: Seq<Tile>,
    pub is_dealer: bool,
    pub is_tsumo: bool,
    pub is_riichi: bool,
    pub score: int,
    pub wall_remaining: nat,
}

impl ContextView {
    /// The context with the given way of winning.
    pub open spec fn with_tsumo(self, is_tsumo: bool) -> ContextView {
        ContextView { is_tsumo, ..self }
    }
}

impl View for GameContext {
    type V = ContextView;

    open spec fn view(&self) -> ContextView {
        ContextView {
            player_wind: self.player_wind,
            round_wind: self.round_wind,
            dora: self.dora@,
            is_dealer: self.dealer_index == self.current_turn,
            is_tsumo: self.is_tsumo,
            is_riichi: self.is_riichi,
            score: self.score as int,
            wall_remaining: self.wall_remaining as nat,
        }
    }
}

/// The tile that an indicator points to: the next rank of the suit, the
/// next wind or the next dragon, going round; a bonus tile or the
/// wildcard points to itself.
pub open spec fn next_tile(indicator: Tile) -> Tile {
    match indicator {
        Tile::Suit(suit, rank) => Tile::Suit(
            suit,
            if rank >= 9 {
                1
            } else {
                (rank + 1) as u8
            },
        ),
        Tile::Wind(Wind::East) => Tile::Wind(Wind::South),
        Tile::Wind(Wind::South) => Tile::Wind(Wind::West),
        Tile::Wind(Wind::West) => Tile::Wind(Wind::North),
        Tile::Wind(Wind::North) => Tile::Wind(Wind::East),
        Tile::Dragon(Dragon::White) => Tile::Dragon(Dragon::Green),
        Tile::Dragon(Dragon::Green) => Tile::Dragon(Dragon::Red),
        Tile::Dragon(Dragon::Red) => Tile::Dragon(Dragon::White),
        Tile::Flower(flower) => Tile::Flower(flower),
        Tile::Joker => Tile::Joker,
    }
}

/// The tile that an indicator points to.
pub fn dora_of(indicator: Tile) -> (dora: Tile)
    ensures
        dora == next_tile(indicator),
        dora.wf(),
{
    match indicator {
        Tile::Suit(suit, rank) => {
            if rank >= 9 {
                Tile::Suit(suit, 1)
            } else {
                Tile::Suit(suit, rank + 1)
            }
        },
        Tile::Wind(Wind::East) => Tile::Wind(Wind::South),
        Tile::Wind(Wind::South) => Tile::Wind(Wind::West),
        Tile::Wind(Wind::West) => Tile::Wind(Wind::North),
        Tile::Wind(Wind::North) => Tile::Wind(Wind::East),
        Tile::Dragon(Dragon::White) => Tile::Dragon(Dragon::Green),
        Tile::Dragon(Dragon::Green) => Tile::Dragon(Dragon::Red),
        Tile::Dragon(Dragon::Red) => Tile::Dragon(Dragon::White),
        Tile::Flower(flower) => Tile::Flower(flower),
        Tile::Joker => Tile::Joker,
    }
}

/// The tiles that the indicators point to, in the order of the
/// indicators.
pub fn calculate_dora(indicators: &[Tile]) -> (dora: Vec<Tile>)
    ensures
        dora@.len() == indicators@.len(),
        forall|i: int| 0 <= i < dora@.len() ==> #[trigger] dora@[i] == next_tile(indicators@[i]),
        forall|i: int| 0 <= i < dora@.len() ==> (#[trigger] dora@[i]).wf(),
{
    let mut dora: Vec<Tile> = Vec::new();
    let mut i: usize = 0;
    while i < indicators.len()
        invariant
            i <= indicators@.len(),
            dora@.len() == i,
            forall|k: int| 0 <= k < i ==> #[trigger] dora@[k] == next_tile(indicators@[k]),
            forall|k: int| 0 <= k < i ==> (#[trigger] dora@[k]).wf(),
        decreases indicators@.len() - i,
    {
        dora.push(dora_of(indicators[i]));
        i = i + 1;
    }
    dora
}

impl GameContext {
    /// The context of a player in a game, from the facts of the game.
    pub fn new(
        player_wind: WindDirection,
        round_wind: WindDirection,
        dora_indicators: &[Tile],
        current_turn: usize,
        dealer_index: usize,
    ) -> (context: Self)
        ensures
            context.player_wind == player_wind,
            context.round_wind == round_wind,
            context.dora@.len() == dora_indicators@.len(),
            forall|i: int|
                0 <= i < context.dora@.len() ==> #[trigger] context.dora@[i] == next_tile(
                    dora_indicators@[i],
                ),
            context.current_turn == current_turn,
            context.dealer_index == dealer_index,
            !context.is_tsumo,
            !context.is_riichi,
            context.score == 0,
            context.wall_remaining == 0,
    {
        GameContext {
            player_wind,
            round_wind,
            dora: calculate_dora(dora_indicators),
            current_turn,
            dealer_index,
            is_tsumo: false,
            is_riichi: false,
            score: 0,
            wall_remaining: 0,
        }
    }

    /// The seat whose turn it is.
    pub fn current_turn(&self) -> (seat: usize)
        ensures
            seat == self.current_turn,
    {
        self.current_turn
    }

    /// The seat of the dealer.
    pub fn dealer_index(&self) -> (seat: usize)
        ensures
            seat == self.dealer_index,
    {
        self.dealer_index
    }

    /// Whether the player is the dealer.
    pub fn is_dealer(&self) -> (dealer: bool)
        ensures
            dealer == self@.is_dealer,
    {
        self.dealer_index == self.current_turn
    }
}

} // verus!
