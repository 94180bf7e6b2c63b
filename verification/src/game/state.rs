//! The state of a game of four players.

use vstd::prelude::*;
use crate::errors::MajiangResult;
use crate::game::context::{calculate_dora, next_tile, GameContext};
use crate::hand::representation::HandView;
use crate::player::agent::{AiType, PlayerAgent};
use crate::player::model::{Player, WindDirection};
use crate::tile::Tile;
use crate::wall::builder::WallConfig;
use crate::wall::dead_wall::DeadWallConfig;
use crate::wall::wall::Wall;

verus! {

/// The state of a game: the players in the order of their seats, who
/// decides for each, the wall, and the round.
#[derive(Debug)]
pub struct GameState {
    pub players: Vec<Player>,
    pub agents: Vec<PlayerAgent>,
    pub wall: Wall,
    /// The seat whose turn it is.
    pub current_turn: usize,
    /// The seat of the dealer.
    pub dealer_index: usize,
    pub round_wind: WindDirection,
    pub round_number: u8,
    /// The number of repeated rounds.
    pub honba: u8,
    /// The stakes of declarations on the table.
    pub riichi_sticks: u8,
    /// The indicators turned so far.
    pub dora_indicators: Vec<Tile>,
    /// The tile discarded last.
    pub last_discard: Option<Tile>,
}

/// The points that each player starts with.
pub const INITIAL_SCORE: i32 = 25000;

impl GameState {
    /// What every state satisfies: four players and four agents, turns
    /// within the seats, and well-formed hands and wall.
    pub open spec fn wf(&self) -> bool {
        &&& self.players@.len() == 4
        &&& self.agents@.len() == 4
        &&& self.current_turn < 4
        &&& self.dealer_index < 4
        &&& self.wall.wf()
        &&& forall|i: int| 0 <= i < 4 ==> (#[trigger] self.players@[i]).hand.wf()
    }

    /// A new game of the Japanese variant: four simple players with empty
    /// hands and the starting points, seated east to north, east dealing
    /// and starting, and a new wall, shuffled by the seed if one is
    /// given.
    pub fn new(seed: Option<u64>) -> (made: MajiangResult<Self>)
        ensures
            made matches Ok(state) && {
                &&& state.wf()
                &&& state.current_turn == 0
                &&& state.dealer_index == 0
                &&& state.round_wind == WindDirection::East
                &&& state.round_number == 1
                &&& state.honba == 0
                &&& state.riichi_sticks == 0
                &&& state.last_discard is None
                &&& state.dora_indicators@.len() == 0
                &&& state.wall@.remaining.len() == 122
                &&& state.wall@.drawn_count == 0
                &&& !state.wall@.game_started
                &&& forall|i: int|
                    0 <= i < 4 ==> (#[trigger] state.players@[i]).hand@ == HandView::empty()
                        && state.players@[i].id == i && state.players@[i].score == INITIAL_SCORE
                &&& forall|i: int|
                    0 <= i < 4 ==> #[trigger] state.agents@[i] == PlayerAgent::Ai(AiType::Simple)
            },
    {
        let wall: Wall = match Wall::new(
            WallConfig::Riichi,
            Some(DeadWallConfig::Riichi { dora_indicators: 1, uradora_indicators: 1 }),
            seed,
        ) {
            Ok(wall) => wall,
            Err(error) => {
                return Err(error);
            },
        };
        proof {
            crate::wall::builder::lemma_custom_size(0, false, 4, 4);
        }
        let mut players: Vec<Player> = Vec::new();
        players.push(Player::new(0, INITIAL_SCORE, WindDirection::East));
        players.push(Player::new(1, INITIAL_SCORE, WindDirection::South));
        players.push(Player::new(2, INITIAL_SCORE, WindDirection::West));
        players.push(Player::new(3, INITIAL_SCORE, WindDirection::North));
        let mut agents: Vec<PlayerAgent> = Vec::new();
        agents.push(PlayerAgent::Ai(AiType::Simple));
        agents.push(PlayerAgent::Ai(AiType::Simple));
        agents.push(PlayerAgent::Ai(AiType::Simple));
        agents.push(PlayerAgent::Ai(AiType::Simple));
        Ok(
            GameState {
                players,
                agents,
                wall,
                current_turn: 0,
                dealer_index: 0,
                round_wind: WindDirection::East,
                round_number: 1,
                honba: 0,
                riichi_sticks: 0,
                dora_indicators: Vec::new(),
                last_discard: None,
            },
        )
    }

    /// The player whose turn it is.
    pub fn current_player(&self) -> (player: &Player)
        requires
            self.wf(),
        ensures
            *player == self.players@[self.current_turn as int],
    {
        &self.players[self.current_turn]
    }

    /// The player whose turn it is, to be changed in place.
    pub fn current_player_mut(&mut self) -> (player: &mut Player)
        requires
            old(self).wf(),
        ensures
            *player == old(self).players@[old(self).current_turn as int],
            final(self).players@ == old(self).players@.update(
                old(self).current_turn as int,
                *final(player),
            ),
            final(self).agents == old(self).agents,
            final(self).wall == old(self).wall,
            final(self).current_turn == old(self).current_turn,
            final(self).dealer_index == old(self).dealer_index,
            final(self).round_wind == old(self).round_wind,
            final(self).round_number == old(self).round_number,
            final(self).honba == old(self).honba,
            final(self).riichi_sticks == old(self).riichi_sticks,
            final(self).dora_indicators == old(self).dora_indicators,
            final(self).last_discard == old(self).last_discard,
    {
        &mut self.players[self.current_turn]
    }

    /// The agent of the player whose turn it is.
    pub fn current_agent(&self) -> (agent: &PlayerAgent)
        requires
            self.wf(),
        ensures
            *agent == self.agents@[self.current_turn as int],
    {
        &self.agents[self.current_turn]
    }

    /// What the scoring of the hand of the player in the seat needs to
    /// know of the game: the winds, the bonus tiles that the indicators
    /// point to, the seats, and the points, declaration and wall of the
    /// moment. The way of winning is left at a win on a discard.
    pub fn context_for(&self, player_index: usize) -> (context: GameContext)
        requires
            self.wf(),
            player_index < 4,
        ensures
            context.player_wind == self.players@[player_index as int].wind,
            context.round_wind == self.round_wind,
            context.dora@.len() == self.dora_indicators@.len(),
            forall|i: int|
                0 <= i < context.dora@.len() ==> #[trigger] context.dora@[i] == next_tile(
                    self.dora_indicators@[i],
                ),
            context.current_turn == player_index,
            context.dealer_index == self.dealer_index,
            !context.is_tsumo,
            context.is_riichi == self.players@[player_index as int].is_riichi,
            context.score == self.players@[player_index as int].score,
            context.wall_remaining == self.wall@.remaining.len(),
    {
        GameContext {
            player_wind: self.players[player_index].wind,
            round_wind: self.round_wind,
            dora: calculate_dora(self.dora_indicators.as_slice()),
            current_turn: player_index,
            dealer_index: self.dealer_index,
            is_tsumo: false,
            is_riichi: self.players[player_index].is_riichi,
            score: self.players[player_index].score,
            wall_remaining: self.wall.remaining_tiles(),
        }
    }
}

impl GameContext {
    /// The context of the player in the seat, from the state of the game.
    pub fn from_game_state(game_state: &GameState, player_index: usize) -> (context: Self)
        requires
            game_state.wf(),
            player_index < 4,
        ensures
            context.player_wind == game_state.players@[player_index as int].wind,
            context.round_wind == game_state.round_wind,
            context.dora@.len() == game_state.dora_indicators@.len(),
            forall|i: int|
                0 <= i < context.dora@.len() ==> #[trigger] context.dora@[i] == next_tile(
                    game_state.dora_indicators@[i],
                ),
            context.current_turn == player_index,
            context.dealer_index == game_state.dealer_index,
            !context.is_tsumo,
            context.is_riichi == game_state.players@[player_index as int].is_riichi,
            context.score == game_state.players@[player_index as int].score,
            context.wall_remaining == game_state.wall@.remaining.len(),
    {
        game_state.context_for(player_index)
    }
}

} // verus!
