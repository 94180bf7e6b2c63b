//! The turn of a player: a draw, a decision and its effect. What is to
//! be shown or asked lies with the caller, who is told what happened.

use vstd::prelude::*;
use crate::action::Action;
use crate::errors::{MajiangError, MajiangResult};
use crate::game::state::GameState;
use crate::player::actions::get_possible_actions;
use crate::player::agent::PlayerAgent;
use crate::player::model::{Player, WindDirection};
use crate::tile::Tile;

verus! {

/// What a turn came to.
#[derive(Debug, Clone, Copy, PartialEq, Eq, Structural)]
pub enum TurnEvent {
    /// The wall had no tile left: the round is drawn.
    WallEmpty,
    /// The player drew the tile and took the action.
    Acted(Tile, Action),
}

/// The players are the same but for the one in the seat.
pub open spec fn others_unchanged(before: GameState, after: GameState, seat: int) -> bool {
    &&& after.players@.len() == before.players@.len()
    &&& forall|i: int|
        0 <= i < before.players@.len() && i != seat ==> #[trigger] after.players@[i]
            == before.players@[i]
}

/// The two states are the same, their walls as far as can be seen.
pub open spec fn unchanged(before: GameState, after: GameState) -> bool {
    &&& after.players == before.players
    &&& after.agents == before.agents
    &&& after.wall@ == before.wall@
    &&& after.current_turn == before.current_turn
    &&& after.dealer_index == before.dealer_index
    &&& after.round_wind == before.round_wind
    &&& after.round_number == before.round_number
    &&& after.honba == before.honba
    &&& after.riichi_sticks == before.riichi_sticks
    &&& after.dora_indicators == before.dora_indicators
    &&& after.last_discard == before.last_discard
}

/// The state after the player in the seat has discarded the tile,
/// declaring ready or not: the tile has left the hand for the discards
/// and lies on the table as the last discard; a declaration is marked
/// and its stake laid down.
pub open spec fn discarded(
    before: GameState,
    after: GameState,
    seat: int,
    tile: Tile,
    declares: bool,
) -> bool {
    &&& others_unchanged(before, after, seat)
    &&& after.players@[seat].hand@ == before.players@[seat].hand@.discard(tile)
    &&& after.players@[seat].discards@ == before.players@[seat].discards@.push(tile)
    &&& after.players@[seat].is_riichi == (declares || before.players@[seat].is_riichi)
    &&& after.players@[seat].score == before.players@[seat].score
    &&& after.players@[seat].id == before.players@[seat].id
    &&& after.players@[seat].wind == before.players@[seat].wind
    &&& after.riichi_sticks == before.riichi_sticks + if declares {
        1int
    } else {
        0int
    }
    &&& after.last_discard == Some(tile)
    &&& after.agents == before.agents
    &&& after.wall == before.wall
    &&& after.current_turn == before.current_turn
    &&& after.dealer_index == before.dealer_index
    &&& after.round_wind == before.round_wind
    &&& after.round_number == before.round_number
    &&& after.honba == before.honba
    &&& after.dora_indicators == before.dora_indicators
}

/// Whether the action can be applied in a turn: a discard or a
/// declaration of a tile that the player holds, the declaration while a
/// stake can still be laid down.
pub open spec fn applicable(state: GameState, seat: int, action: Action) -> bool {
    match action {
        Action::Discard(tile) => state.players@[seat].hand@.holds(tile),
        Action::Riichi(tile) => state.players@[seat].hand@.holds(tile) && state.riichi_sticks
            < 255,
        _ => false,
    }
}

/// Applies the action that the player in the seat chose in a turn. Only
/// a discard and a declaration are applied here; any other action, and
/// one that cannot be applied, is refused and changes nothing.
pub fn apply_action(game_state: &mut GameState, player_index: usize, action: Action) -> (done:
    MajiangResult<()>)
    requires
        old(game_state).wf(),
        player_index < 4,
    ensures
        final(game_state).wf(),
        applicable(*old(game_state), player_index as int, action) ==> done is Ok && (match action {
            Action::Discard(tile) => discarded(
                *old(game_state),
                *final(game_state),
                player_index as int,
                tile,
                false,
            ),
            Action::Riichi(tile) => discarded(
                *old(game_state),
                *final(game_state),
                player_index as int,
                tile,
                true,
            ),
            _ => true,
        }),
        !applicable(*old(game_state), player_index as int, action) ==> (done matches Err(
            MajiangError::InvalidAction(_),
        ) && *final(game_state) == *old(game_state)),
{
    match action {
        Action::Discard(tile) => {
            if !game_state.players[player_index].hand.holds_tile(&tile) {
                return Err(MajiangError::InvalidAction(String::from_str("Discard failed")));
            }
            let mut player: Player = take_player(&mut game_state.players, player_index);
            let _ = player.discard_tile(tile);
            game_state.players.set(player_index, player);
            game_state.last_discard = Some(tile);
            Ok(())
        },
        Action::Riichi(tile) => {
            if !game_state.players[player_index].hand.holds_tile(&tile) || game_state.riichi_sticks
                == 255 {
                return Err(MajiangError::InvalidAction(String::from_str("Riichi discard failed")));
            }
            let mut player: Player = take_player(&mut game_state.players, player_index);
            let _ = player.discard_tile(tile);
            player.is_riichi = true;
            game_state.players.set(player_index, player);
            game_state.riichi_sticks = game_state.riichi_sticks + 1;
            game_state.last_discard = Some(tile);
            Ok(())
        },
        _ => Err(
            MajiangError::InvalidAction(String::from_str("Action cannot be actively chosen in turn")),
        ),
    }
}

/// Takes the player in the seat out of the list, leaving a player
/// without tiles in the place.
fn take_player(players: &mut Vec<Player>, seat: usize) -> (player: Player)
    requires
        seat < old(players)@.len(),
    ensures
        player == old(players)@[seat as int],
        final(players)@.len() == old(players)@.len(),
        forall|i: int|
            0 <= i < old(players)@.len() && i != seat ==> #[trigger] final(players)@[i] == old(
                players,
            )@[i],
        final(players)@[seat as int].hand.wf(),
{
    let stand_in: Player = Player::new(seat, 0, WindDirection::East);
    players.push(stand_in);
    let player: Player = players.swap_remove(seat);
    player
}

/// A list of discards holds no win by draw.
pub proof fn lemma_discards_only(tiles: Seq<Tile>, apart: Option<Tile>)
    ensures
        !crate::player::actions::discards_of(tiles, apart).contains(Action::Tsumo),
    decreases tiles.len(),
{
    if tiles.len() > 0 {
        lemma_discards_only(tiles.drop_last(), apart);
    }
}

/// The state after the player whose turn it is has drawn the tile and
/// then, if `discards`, discarded it again. The wall has given its
/// first tile; nothing else has changed.
pub open spec fn after_draw(before: GameState, after: GameState, tile: Tile, discards: bool) -> bool {
    let seat = before.current_turn as int;
    &&& others_unchanged(before, after, seat)
    &&& after.players@[seat].hand@ == before.players@[seat].hand@.with_drawn(
        if discards {
            None
        } else {
            Some(tile)
        },
    )
    &&& after.players@[seat].discards@ == if discards {
        before.players@[seat].discards@.push(tile)
    } else {
        before.players@[seat].discards@
    }
    &&& after.players@[seat].is_riichi == before.players@[seat].is_riichi
    &&& after.players@[seat].score == before.players@[seat].score
    &&& after.players@[seat].id == before.players@[seat].id
    &&& after.players@[seat].wind == before.players@[seat].wind
    &&& after.last_discard == if discards {
        Some(tile)
    } else {
        before.last_discard
    }
    &&& after.wall@ == (crate::wall::wall::WallView {
        remaining: before.wall@.remaining.skip(1),
        drawn_count: before.wall@.drawn_count + 1,
        ..before.wall@
    })
    &&& after.agents == before.agents
    &&& after.current_turn == before.current_turn
    &&& after.dealer_index == before.dealer_index
    &&& after.round_wind == before.round_wind
    &&& after.round_number == before.round_number
    &&& after.honba == before.honba
    &&& after.riichi_sticks == before.riichi_sticks
    &&& after.dora_indicators == before.dora_indicators
}

/// The turn of the player whose turn it is. A wall that is not started
/// refuses the draw, and an empty wall ends the round: nothing changes.
/// Else the player draws the first tile of the wall. The simple player
/// discards it at once; for a person or someone remote the turn stops
/// after the draw with an error that says that the player has to be
/// asked.
pub fn process_player_turn(game_state: &mut GameState) -> (event: MajiangResult<TurnEvent>)
    requires
        old(game_state).wf(),
    ensures
        final(game_state).wf(),
        if !old(game_state).wall@.game_started {
            event matches Err(MajiangError::InvalidOperation(_)) && unchanged(
                *old(game_state),
                *final(game_state),
            )
        } else if old(game_state).wall@.remaining.len() == 0 {
            event == Ok::<TurnEvent, MajiangError>(TurnEvent::WallEmpty) && unchanged(
                *old(game_state),
                *final(game_state),
            )
        } else if old(game_state).agents@[old(game_state).current_turn as int] is Ai {
            event == Ok::<TurnEvent, MajiangError>(
                TurnEvent::Acted(
                    old(game_state).wall@.remaining[0],
                    Action::Discard(old(game_state).wall@.remaining[0]),
                ),
            ) && after_draw(
                *old(game_state),
                *final(game_state),
                old(game_state).wall@.remaining[0],
                true,
            )
        } else {
            event matches Err(MajiangError::InvalidAction(_)) && after_draw(
                *old(game_state),
                *final(game_state),
                old(game_state).wall@.remaining[0],
                false,
            )
        },
{
    let current_player_index: usize = game_state.current_turn;
    let drawn_tile: Tile = match game_state.wall.draw_tile() {
        Ok(tile) => tile,
        Err(MajiangError::NotEnoughTiles) => {
            return Ok(TurnEvent::WallEmpty);
        },
        Err(error) => {
            return Err(error);
        },
    };
    let mut player: Player = take_player(&mut game_state.players, current_player_index);
    player.hand.set_drawn_tile(Some(drawn_tile));
    let possible_actions: Vec<Action> = get_possible_actions(&player.hand);
    let agent: PlayerAgent = game_state.agents[current_player_index];
    let chosen_action: Option<Action> = agent.decide_action(&player, possible_actions.as_slice());
    proof {
        lemma_discards_only(
            crate::hand::representation::expand(player.hand@.counts, 43),
            Some(drawn_tile),
        );
    }
    game_state.players.set(current_player_index, player);
    let action: Action = match chosen_action {
        Some(action) => action,
        None => {
            return Err(MajiangError::InvalidAction(String::from_str("Waiting for player input")));
        },
    };
    match apply_action(game_state, current_player_index, action) {
        Ok(_) => {},
        Err(error) => {
            return Err(error);
        },
    }
    Ok(TurnEvent::Acted(drawn_tile, action))
}

} // verus!
