//! The start of a round.

use vstd::prelude::*;
use crate::errors::MajiangResult;
use crate::game::state::GameState;
use crate::hand::representation::Hand;
use crate::player::model::Player;
use crate::tile::Tile;
use crate::wall::builder::{lemma_custom_size, WallConfig};
use crate::wall::dead_wall::DeadWallConfig;
use crate::wall::wall::Wall;

verus! {

/// The number of tiles dealt to each player.
pub const HAND_SIZE: usize = 13;

/// The player has just been dealt `count` tiles: they are concealed, no
/// meld is declared and no tile drawn, nothing is discarded and nothing
/// declared.
pub open spec fn dealt(player: Player, count: nat) -> bool {
    &&& player.hand.wf()
    &&& player.hand@.concealed() == count
    &&& player.hand@.melds.len() == 0
    &&& player.hand@.drawn is None
    &&& player.discards@.len() == 0
    &&& !player.is_riichi
}

/// Starts a round: a new wall of the Japanese variant, shuffled by the
/// seed if one is given; every player with thirteen tiles, dealt one at
/// a time round the seats; the dealer to play. Seats, winds and points
/// stay. The wall is started, so that tiles can be drawn.
pub fn initialize_round(game_state: &mut GameState, seed: Option<u64>) -> (done: MajiangResult<()>)
    requires
        old(game_state).wf(),
    ensures
        final(game_state).wf(),
        final(game_state).agents == old(game_state).agents,
        final(game_state).dealer_index == old(game_state).dealer_index,
        final(game_state).round_wind == old(game_state).round_wind,
        final(game_state).round_number == old(game_state).round_number,
        final(game_state).honba == old(game_state).honba,
        final(game_state).riichi_sticks == old(game_state).riichi_sticks,
        forall|i: int|
            0 <= i < 4 ==> (#[trigger] final(game_state).players@[i]).id == old(
                game_state,
            ).players@[i].id && final(game_state).players@[i].score == old(
                game_state,
            ).players@[i].score && final(game_state).players@[i].wind == old(
                game_state,
            ).players@[i].wind,
        done is Ok,
        done is Ok ==> {
            &&& final(game_state).current_turn == old(game_state).dealer_index
            &&& final(game_state).last_discard is None
            &&& final(game_state).wall@.game_started
            &&& final(game_state).wall@.remaining.len() == 70
            &&& final(game_state).wall@.drawn_count == 52
            &&& forall|i: int| 0 <= i < 4 ==> dealt(#[trigger] final(game_state).players@[i], 13)
        },
{
    let mut wall: Wall = match Wall::new(
        WallConfig::Riichi,
        Some(DeadWallConfig::Riichi { dora_indicators: 1, uradora_indicators: 1 }),
        seed,
    ) {
        Ok(wall) => wall,
        Err(error) => {
            return Err(error);
        },
    };
    proof {
        lemma_custom_size(0, false, 4, 4);
    }
    let mut seat: usize = 0;
    while seat < 4
        invariant
            seat <= 4,
            game_state.players@.len() == 4,
            game_state.agents == old(game_state).agents,
            game_state.wall == old(game_state).wall,
            game_state.current_turn == old(game_state).current_turn,
            game_state.dealer_index == old(game_state).dealer_index,
            game_state.round_wind == old(game_state).round_wind,
            game_state.round_number == old(game_state).round_number,
            game_state.honba == old(game_state).honba,
            game_state.riichi_sticks == old(game_state).riichi_sticks,
            old(game_state).wf(),
            forall|i: int| 0 <= i < 4 ==> (#[trigger] game_state.players@[i]).hand.wf(),
            forall|i: int|
                0 <= i < 4 ==> (#[trigger] game_state.players@[i]).id == old(
                    game_state,
                ).players@[i].id && game_state.players@[i].score == old(
                    game_state,
                ).players@[i].score && game_state.players@[i].wind == old(
                    game_state,
                ).players@[i].wind,
            forall|i: int| 0 <= i < seat ==> dealt(#[trigger] game_state.players@[i], 0),
        decreases 4 - seat,
    {
        let before: &Player = &game_state.players[seat];
        let cleared: Player = Player {
            id: before.id,
            hand: Hand::new(),
            score: before.score,
            discards: Vec::new(),
            is_riichi: false,
            wind: before.wind,
        };
        game_state.players.set(seat, cleared);
        seat = seat + 1;
    }
    let mut round: usize = 0;
    while round < HAND_SIZE
        invariant
            round <= HAND_SIZE,
            wall.wf(),
            !wall@.game_started,
            wall@.remaining.len() == 122 - 4 * round,
            wall@.drawn_count == 4 * round,
            game_state.players@.len() == 4,
            game_state.agents == old(game_state).agents,
            game_state.wall == old(game_state).wall,
            game_state.current_turn == old(game_state).current_turn,
            game_state.dealer_index == old(game_state).dealer_index,
            game_state.round_wind == old(game_state).round_wind,
            game_state.round_number == old(game_state).round_number,
            game_state.honba == old(game_state).honba,
            game_state.riichi_sticks == old(game_state).riichi_sticks,
            old(game_state).wf(),
            forall|i: int| 0 <= i < 4 ==> (#[trigger] game_state.players@[i]).hand.wf(),
            forall|i: int|
                0 <= i < 4 ==> (#[trigger] game_state.players@[i]).id == old(
                    game_state,
                ).players@[i].id && game_state.players@[i].score == old(
                    game_state,
                ).players@[i].score && game_state.players@[i].wind == old(
                    game_state,
                ).players@[i].wind,
            forall|i: int| 0 <= i < 4 ==> dealt(#[trigger] game_state.players@[i], round as nat),
        decreases HAND_SIZE - round,
    {
        let tiles: Vec<Tile> = match wall.deal_initial_hand(4) {
            Ok(tiles) => tiles,
            Err(error) => {
                return Err(error);
            },
        };
        let mut seat: usize = 0;
        while seat < 4
            invariant
                seat <= 4,
                round < HAND_SIZE,
                tiles@.len() == 4,
                forall|i: int| 0 <= i < 4 ==> (#[trigger] tiles@[i]).wf(),
                game_state.players@.len() == 4,
                game_state.agents == old(game_state).agents,
                game_state.wall == old(game_state).wall,
                game_state.current_turn == old(game_state).current_turn,
                game_state.dealer_index == old(game_state).dealer_index,
                game_state.round_wind == old(game_state).round_wind,
                game_state.round_number == old(game_state).round_number,
                game_state.honba == old(game_state).honba,
                game_state.riichi_sticks == old(game_state).riichi_sticks,
                old(game_state).wf(),
                forall|i: int| 0 <= i < 4 ==> (#[trigger] game_state.players@[i]).hand.wf(),
                forall|i: int|
                    0 <= i < 4 ==> (#[trigger] game_state.players@[i]).id == old(
                        game_state,
                    ).players@[i].id && game_state.players@[i].score == old(
                        game_state,
                    ).players@[i].score && game_state.players@[i].wind == old(
                        game_state,
                    ).players@[i].wind,
                forall|i: int|
                    0 <= i < seat ==> dealt(#[trigger] game_state.players@[i], (round + 1) as nat),
                forall|i: int|
                    seat <= i < 4 ==> dealt(#[trigger] game_state.players@[i], round as nat),
            decreases 4 - seat,
        {
            let tile: Tile = tiles[seat];
            let before: &Player = &game_state.players[seat];
            let mut hand: Hand = before.hand.duplicate();
            hand.add_tile(tile);
            let richer: Player = Player {
                id: before.id,
                hand,
                score: before.score,
                discards: Vec::new(),
                is_riichi: false,
                wind: before.wind,
            };
            game_state.players.set(seat, richer);
            seat = seat + 1;
        }
        round = round + 1;
    }
    wall.start_game();
    game_state.wall = wall;
    game_state.current_turn = game_state.dealer_index;
    game_state.last_discard = None;
    Ok(())
}

} // verus!
