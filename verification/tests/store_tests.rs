use store::EndGameReason;
use store::GameEvent;
use store::GameState;
use store::Player;
use store::Stage;
use store::Tile;

fn join(gs: &mut GameState, id: u64, name: &str) -> bool {
    gs.dispatch(&GameEvent::PlayerJoined { player_id: id, name: name.to_string() })
}

fn two_player_game() -> GameState {
    let mut gs = GameState::default();
    assert!(join(&mut gs, 1, "Alice"));
    assert!(join(&mut gs, 2, "Bob"));
    assert!(gs.dispatch(&GameEvent::BeginGame { goes_first: 1 }));
    gs
}

#[test]
fn join_sequence_assigns_pieces() {
    let mut gs = GameState::default();
    assert!(join(&mut gs, 1, "Alice"));
    assert!(join(&mut gs, 2, "Bob"));
    assert_eq!(gs.players.len(), 2);
    assert_eq!(gs.get_player_tile(&1), Some(Tile::Tic));
    assert_eq!(gs.get_player_tile(&2), Some(Tile::Tac));
    assert_eq!(gs.players[0].0, 1);
    assert_eq!(gs.players[0].1.name, "Alice");
    assert_eq!(gs.players[1].0, 2);
    assert_eq!(gs.players[1].1.name, "Bob");
}

#[test]
fn duplicate_join_rejected() {
    let mut gs = GameState::default();
    assert!(join(&mut gs, 1, "Alice"));
    assert!(!join(&mut gs, 1, "Alice again"));
    assert_eq!(gs.players.len(), 1);
}

#[test]
fn join_capped_at_two_players() {
    let mut gs = GameState::default();
    assert!(join(&mut gs, 1, "Alice"));
    assert!(join(&mut gs, 2, "Bob"));
    assert!(!join(&mut gs, 3, "Carol"));
    assert_eq!(gs.players.len(), 2);
}

#[test]
fn history_records_consumes_in_order() {
    let gs = two_player_game();
    assert_eq!(gs.history.len(), 3);
    assert!(matches!(
        gs.history[0],
        GameEvent::PlayerJoined { player_id: 1, .. }
    ));
    assert!(matches!(
        gs.history[1],
        GameEvent::PlayerJoined { player_id: 2, .. }
    ));
    assert!(matches!(gs.history[2], GameEvent::BeginGame { goes_first: 1 }));
}

#[test]
fn rejected_event_leaves_state_unchanged() {
    let mut gs = two_player_game();
    let history_before = gs.history.len();
    let board_before = gs.board;
    assert!(!gs.dispatch(&GameEvent::PlaceTile { player_id: 2, at: 4 }));
    assert_eq!(gs.history.len(), history_before);
    assert_eq!(gs.board, board_before);
    assert_eq!(gs.active_player_id, 1);
    assert_eq!(gs.stage, Stage::InGame);
}

#[test]
fn validate_is_repeatable_and_pure() {
    let gs = two_player_game();
    let event = GameEvent::PlaceTile { player_id: 1, at: 4 };
    let first = gs.validate(&event);
    let second = gs.validate(&event);
    assert_eq!(first, second);
    assert!(first);
    let bad = GameEvent::PlaceTile { player_id: 2, at: 4 };
    assert_eq!(gs.validate(&bad), gs.validate(&bad));
    assert_eq!(gs.stage, Stage::InGame);
    assert_eq!(gs.active_player_id, 1);
    assert_eq!(gs.players.len(), 2);
    assert_eq!(gs.history.len(), 3);
    assert_eq!(gs.board, [Tile::Empty; 9]);
}

#[test]
fn turn_alternates_between_players() {
    let mut gs = two_player_game();
    assert!(gs.dispatch(&GameEvent::PlaceTile { player_id: 1, at: 0 }));
    assert_eq!(gs.active_player_id, 2);
    assert_eq!(gs.board[0], Tile::Tic);
    assert!(gs.dispatch(&GameEvent::PlaceTile { player_id: 2, at: 4 }));
    assert_eq!(gs.active_player_id, 1);
    assert_eq!(gs.board[4], Tile::Tac);
}

#[test]
fn illegal_out_of_turn_move_rejected() {
    let gs = two_player_game();
    assert_eq!(gs.active_player_id, 1);
    assert!(!gs.validate(&GameEvent::PlaceTile { player_id: 2, at: 4 }));
}

#[test]
fn out_of_range_index_rejected() {
    let fresh = GameState::default();
    assert!(!fresh.validate(&GameEvent::PlaceTile { player_id: 1, at: 9 }));
    let mid_game = two_player_game();
    assert!(!mid_game.validate(&GameEvent::PlaceTile { player_id: 1, at: 9 }));
    assert!(!mid_game.validate(&GameEvent::PlaceTile { player_id: 1, at: 100 }));
}

#[test]
fn double_occupancy_rejected() {
    let mut gs = two_player_game();
    assert!(gs.dispatch(&GameEvent::PlaceTile { player_id: 1, at: 0 }));
    assert_eq!(gs.board[0], Tile::Tic);
    assert_eq!(gs.get_player_tile(&2), Some(Tile::Tac));
    assert!(!gs.validate(&GameEvent::PlaceTile { player_id: 2, at: 0 }));
}

#[test]
fn place_tile_requires_known_player() {
    let gs = two_player_game();
    assert!(!gs.validate(&GameEvent::PlaceTile { player_id: 9, at: 4 }));
}

#[test]
fn place_tile_requires_full_roster() {
    let mut gs = GameState::default();
    assert!(join(&mut gs, 1, "Alice"));
    assert!(gs.dispatch(&GameEvent::BeginGame { goes_first: 1 }));
    assert!(!gs.validate(&GameEvent::PlaceTile { player_id: 1, at: 0 }));
}

#[test]
fn disconnect_mid_game_removes_player() {
    let mut gs = two_player_game();
    assert!(gs.dispatch(&GameEvent::PlayerDisconnected { player_id: 1 }));
    assert_eq!(gs.players.len(), 1);
    assert_eq!(gs.players[0].0, 2);
    assert!(!gs.validate(&GameEvent::PlaceTile { player_id: 1, at: 0 }));
    assert!(!gs.validate(&GameEvent::PlayerDisconnected { player_id: 1 }));
    assert!(!gs.validate(&GameEvent::BeginGame { goes_first: 1 }));
}

#[test]
fn disconnect_of_unknown_player_rejected() {
    let gs = GameState::default();
    assert!(!gs.validate(&GameEvent::PlayerDisconnected { player_id: 1 }));
}

#[test]
fn begin_game_needs_pregame_and_known_player() {
    let mut gs = GameState::default();
    assert!(!gs.validate(&GameEvent::BeginGame { goes_first: 1 }));
    assert!(join(&mut gs, 1, "Alice"));
    assert!(join(&mut gs, 2, "Bob"));
    assert!(gs.validate(&GameEvent::BeginGame { goes_first: 2 }));
    assert!(gs.dispatch(&GameEvent::BeginGame { goes_first: 2 }));
    assert_eq!(gs.stage, Stage::InGame);
    assert_eq!(gs.active_player_id, 2);
    assert!(!gs.validate(&GameEvent::BeginGame { goes_first: 2 }));
}

#[test]
fn end_game_reasons_follow_stage() {
    let pregame = GameState::default();
    assert!(!pregame.validate(&GameEvent::EndGame {
        reason: EndGameReason::PlayerWon { winner: 1 },
    }));
    assert!(pregame.validate(&GameEvent::EndGame {
        reason: EndGameReason::PlayerLeft { player_id: 1 },
    }));
    let mut gs = two_player_game();
    let won = GameEvent::EndGame { reason: EndGameReason::PlayerWon { winner: 1 } };
    assert!(gs.validate(&won));
    assert!(gs.dispatch(&won));
    assert_eq!(gs.stage, Stage::Ended);
}

#[test]
fn win_detection_row_of_tac() {
    let mut gs = GameState::default();
    gs.players.push((
        7,
        Player { name: "Tacky".to_string(), piece: Tile::Tac },
    ));
    gs.board[0] = Tile::Tac;
    gs.board[1] = Tile::Tac;
    gs.board[2] = Tile::Tac;
    assert_eq!(gs.determine_winner(), Some(7));
}

#[test]
fn win_detection_empty_board_has_no_winner() {
    let gs = GameState::default();
    assert_eq!(gs.determine_winner(), None);
}

#[test]
fn win_detection_after_played_row() {
    let mut gs = two_player_game();
    assert!(gs.dispatch(&GameEvent::PlaceTile { player_id: 1, at: 0 }));
    assert!(gs.dispatch(&GameEvent::PlaceTile { player_id: 2, at: 3 }));
    assert!(gs.dispatch(&GameEvent::PlaceTile { player_id: 1, at: 1 }));
    assert!(gs.dispatch(&GameEvent::PlaceTile { player_id: 2, at: 4 }));
    assert_eq!(gs.determine_winner(), None);
    assert!(gs.dispatch(&GameEvent::PlaceTile { player_id: 1, at: 2 }));
    assert_eq!(gs.determine_winner(), Some(1));
}

#[test]
fn win_detection_column_and_diagonal() {
    let mut column = GameState::default();
    column.players.push((
        5,
        Player { name: "Col".to_string(), piece: Tile::Tic },
    ));
    column.board[1] = Tile::Tic;
    column.board[4] = Tile::Tic;
    column.board[7] = Tile::Tic;
    assert_eq!(column.determine_winner(), Some(5));

    let mut diagonal = GameState::default();
    diagonal.players.push((
        6,
        Player { name: "Diag".to_string(), piece: Tile::Tac },
    ));
    diagonal.board[2] = Tile::Tac;
    diagonal.board[4] = Tile::Tac;
    diagonal.board[6] = Tile::Tac;
    assert_eq!(diagonal.determine_winner(), Some(6));
}

#[test]
fn winner_needs_an_owning_player() {
    let mut gs = GameState::default();
    gs.board[0] = Tile::Tac;
    gs.board[1] = Tile::Tac;
    gs.board[2] = Tile::Tac;
    assert_eq!(gs.determine_winner(), None);
}

#[test]
fn get_player_tile_unknown_is_none() {
    let gs = two_player_game();
    assert_eq!(gs.get_player_tile(&9), None);
}

#[test]
fn is_valid_on_matches_validate() {
    let gs = two_player_game();
    let event = GameEvent::PlaceTile { player_id: 1, at: 4 };
    assert_eq!(event.is_valid_on(&gs), gs.validate(&event));
    let bad = GameEvent::PlaceTile { player_id: 1, at: 9 };
    assert_eq!(bad.is_valid_on(&gs), false);
}
