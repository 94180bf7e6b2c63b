use majiang_core::action::Action;
use majiang_core::errors::MajiangError;
use majiang_core::game::flow::initialize_round;
use majiang_core::game::turn::{apply_action, process_player_turn, TurnEvent};
use majiang_core::game::{GameContext, GameState};
use majiang_core::player::{PlayerAgent, WindDirection};
use majiang_core::tile::{Suit, Tile};

#[test]
fn a_new_game() {
    let state = GameState::new(Some(5)).unwrap();
    assert_eq!(state.players.len(), 4);
    assert_eq!(state.agents.len(), 4);
    assert_eq!(state.current_turn, 0);
    assert_eq!(state.dealer_index, 0);
    assert_eq!(state.round_wind, WindDirection::East);
    assert_eq!(state.round_number, 1);
    assert_eq!(state.wall.remaining_tiles(), 122);
    assert_eq!(state.players[2].wind, WindDirection::West);
    assert_eq!(state.players[3].score, 25000);
    assert_eq!(state.current_player().id, 0);
    assert!(matches!(state.current_agent(), PlayerAgent::Ai(_)));
    let context = GameContext::from_game_state(&state, 1);
    assert_eq!(context.player_wind, WindDirection::South);
    assert_eq!(context.round_wind, WindDirection::East);
    assert_eq!(context.score, 25000);
    assert_eq!(context.wall_remaining, 122);
    assert!(!context.is_dealer());
    assert!(GameContext::from_game_state(&state, 0).is_dealer());
}

#[test]
fn a_round_is_dealt_round_the_seats() {
    let mut state = GameState::new(Some(5)).unwrap();
    state.dealer_index = 2;
    state.players[1].score = 31000;
    assert!(initialize_round(&mut state, Some(9)).is_ok());
    assert_eq!(state.current_turn, 2);
    assert_eq!(state.wall.remaining_tiles(), 70);
    assert_eq!(state.wall.drawn_count(), 52);
    assert_eq!(state.players[1].score, 31000);
    for player in &state.players {
        assert_eq!(player.hand.tile_count(), 13);
        assert!(player.discards.is_empty());
    }
    let mut twin = GameState::new(Some(1)).unwrap();
    initialize_round(&mut twin, Some(9)).unwrap();
    for seat in 0..4 {
        assert_eq!(
            twin.players[seat].hand.get_closed_tiles(),
            state.players[seat].hand.get_closed_tiles()
        );
    }
}

#[test]
fn the_simple_player_discards_what_it_drew() {
    let mut state = GameState::new(Some(5)).unwrap();
    assert!(matches!(
        process_player_turn(&mut state),
        Err(MajiangError::InvalidOperation(_))
    ));
    initialize_round(&mut state, Some(9)).unwrap();
    let next = state.wall.get_all_wall_tiles()[0];
    let event = process_player_turn(&mut state).unwrap();
    assert_eq!(event, TurnEvent::Acted(next, Action::Discard(next)));
    assert_eq!(state.last_discard, Some(next));
    assert_eq!(state.players[0].discards, vec![next]);
    assert_eq!(state.players[0].hand.tile_count(), 13);
    assert_eq!(state.wall.remaining_tiles(), 69);

    state.agents[0] = PlayerAgent::Human;
    let drawn = state.wall.get_all_wall_tiles()[0];
    assert!(matches!(
        process_player_turn(&mut state),
        Err(MajiangError::InvalidAction(_))
    ));
    assert_eq!(state.players[0].hand.get_drawn_tile(), Some(drawn));
    assert_eq!(state.wall.remaining_tiles(), 68);
}

#[test]
fn an_empty_wall_ends_the_round() {
    let mut state = GameState::new(Some(5)).unwrap();
    initialize_round(&mut state, Some(9)).unwrap();
    for _ in 0..70 {
        state.wall.draw_tile().unwrap();
    }
    assert_eq!(process_player_turn(&mut state), Ok(TurnEvent::WallEmpty));
}

#[test]
fn actions_of_a_turn() {
    let mut state = GameState::new(Some(5)).unwrap();
    initialize_round(&mut state, Some(9)).unwrap();
    let held = state.players[1].hand.get_closed_tiles()[0];
    assert_eq!(apply_action(&mut state, 1, Action::Riichi(held)), Ok(()));
    assert!(state.players[1].is_riichi);
    assert_eq!(state.riichi_sticks, 1);
    assert_eq!(state.last_discard, Some(held));
    assert_eq!(state.players[1].discards, vec![held]);
    assert_eq!(state.players[1].hand.tile_count(), 12);
    let missing = Tile::Suit(Suit::Dot, 0);
    assert!(matches!(
        apply_action(&mut state, 1, Action::Discard(missing)),
        Err(MajiangError::InvalidAction(_))
    ));
    assert!(matches!(
        apply_action(&mut state, 1, Action::Tsumo),
        Err(MajiangError::InvalidAction(_))
    ));
    assert!(matches!(
        apply_action(&mut state, 1, Action::Pass),
        Err(MajiangError::InvalidAction(_))
    ));
    state.riichi_sticks = 255;
    let other = state.players[2].hand.get_closed_tiles()[0];
    assert!(matches!(
        apply_action(&mut state, 2, Action::Riichi(other)),
        Err(MajiangError::InvalidAction(_))
    ));
    assert_eq!(state.players[2].hand.tile_count(), 13);
    assert_eq!(apply_action(&mut state, 2, Action::Discard(other)), Ok(()));
    assert_eq!(state.players[2].hand.tile_count(), 12);
}

#[test]
fn the_player_to_act_is_changed_in_place() {
    let mut state = GameState::new(Some(5)).unwrap();
    state.current_turn = 2;
    state.current_player_mut().score = 26000;
    assert_eq!(state.players[2].score, 26000);
    assert_eq!(state.players[0].score, 25000);
    assert_eq!(state.current_turn, 2);
    assert_eq!(state.current_player().id, 2);
}
