use game_kernel::engine::{handle_move, join, move_player, parse_direction};
use game_kernel::state::{create_initial_state, GameState};
use game_kernel::types::{CellState, ConfigError, Direction, GameStatus, JoinError, MoveError};

#[test]
fn construction_rejects_degenerate() {
    // A 1x1 grid cannot place four distinct in-bounds starting coordinates.
    assert_eq!(
        create_initial_state(1, 1).err(),
        Some(ConfigError::InvalidDimensions)
    );
    // On 2x2 the bottom-middle and middle-right coordinates collide at (1,1).
    assert_eq!(
        create_initial_state(2, 2).err(),
        Some(ConfigError::InvalidDimensions)
    );
    assert_eq!(
        create_initial_state(0, 0).err(),
        Some(ConfigError::InvalidDimensions)
    );
    assert_eq!(
        create_initial_state(15, 0).err(),
        Some(ConfigError::InvalidDimensions)
    );
    assert!(create_initial_state(3, 2).is_ok());
    assert!(create_initial_state(2, 3).is_ok());
    assert!(create_initial_state(15, 15).is_ok());
}

#[test]
fn initial_state_is_all_neutral_and_waiting() {
    let s = create_initial_state(15, 15).unwrap();
    assert_eq!(s.status, GameStatus::WaitingForPlayers);
    assert_eq!(s.width, 15);
    assert_eq!(s.height, 15);
    for y in 0..15 {
        for x in 0..15 {
            assert_eq!(s.get_cell(x, y), Some(CellState::Neutral));
        }
    }
    assert_eq!(s.get_cell(15, 0), None);
    assert_eq!(s.get_cell(0, 15), None);
    assert!(s.get_player(1).is_none());
    assert!(s.has_neutral_cell());
}

#[test]
fn fifteen_grid_scenario() {
    let mut s = create_initial_state(15, 15).unwrap();

    // Player A joins: id 1, placed top middle (7,0); the cell is claimed and
    // the match keeps waiting.
    let a = join(&mut s).unwrap();
    assert_eq!(a.id, 1);
    assert_eq!((a.x, a.y), (7, 0));
    assert_eq!(s.get_cell(7, 0), Some(CellState::Owned(1)));
    assert_eq!(s.status, GameStatus::WaitingForPlayers);

    // Player B joins: id 2, placed bottom middle (7,14); the match starts.
    let b = join(&mut s).unwrap();
    assert_eq!(b.id, 2);
    assert_eq!((b.x, b.y), (7, 14));
    assert_eq!(s.status, GameStatus::InProgress);

    // A moves down five times, claiming a fresh neutral cell each step.
    for step in 1..=5 {
        assert_eq!(move_player(&mut s, 1, Direction::Down), Ok(()));
        let p = s.get_player(1).unwrap();
        assert_eq!((p.x, p.y), (7, step));
        assert_eq!(s.get_cell(7, step), Some(CellState::Owned(1)));
    }

    // B moves up onto the neutral cell (7,13).
    assert_eq!(move_player(&mut s, 2, Direction::Up), Ok(()));
    let p = s.get_player(2).unwrap();
    assert_eq!((p.x, p.y), (7, 13));
    assert_eq!(s.get_cell(7, 13), Some(CellState::Owned(2)));

    // A walks down to (7,12), then tries to move onto B's cell (7,13):
    // blocked, and nothing changes.
    for step in 6..=12 {
        assert_eq!(move_player(&mut s, 1, Direction::Down), Ok(()));
        assert_eq!(s.get_cell(7, step), Some(CellState::Owned(1)));
    }
    let before_status = s.status;
    assert_eq!(move_player(&mut s, 1, Direction::Down), Err(MoveError::Blocked));
    let p = s.get_player(1).unwrap();
    assert_eq!((p.x, p.y), (7, 12));
    assert_eq!(s.get_cell(7, 13), Some(CellState::Owned(2)));
    assert_eq!(s.status, before_status);
}

#[test]
fn boundary_move_clamps_and_succeeds() {
    let mut s = create_initial_state(15, 15).unwrap();
    join(&mut s).unwrap();
    join(&mut s).unwrap();
    // A stands on the top edge at (7,0); moving up clamps to the same cell,
    // which A owns, so the move succeeds with no position change.
    assert_eq!(move_player(&mut s, 1, Direction::Up), Ok(()));
    let p = s.get_player(1).unwrap();
    assert_eq!((p.x, p.y), (7, 0));
    assert_eq!(s.get_cell(7, 0), Some(CellState::Owned(1)));
    assert_eq!(s.status, GameStatus::InProgress);
    // The same at the left edge for player 3 is unreachable here (only two
    // players joined), so drive B against the bottom edge instead.
    assert_eq!(move_player(&mut s, 2, Direction::Down), Ok(()));
    let p = s.get_player(2).unwrap();
    assert_eq!((p.x, p.y), (7, 14));
}

#[test]
fn left_edge_clamp_keeps_position() {
    let mut s = create_initial_state(15, 15).unwrap();
    join(&mut s).unwrap();
    join(&mut s).unwrap();
    // A walks from (7,0) to the left edge, then keeps moving left: each
    // clamped step still succeeds on A's own cell.
    for _ in 0..7 {
        assert_eq!(move_player(&mut s, 1, Direction::Left), Ok(()));
    }
    let p = s.get_player(1).unwrap();
    assert_eq!((p.x, p.y), (0, 0));
    assert_eq!(move_player(&mut s, 1, Direction::Left), Ok(()));
    let p = s.get_player(1).unwrap();
    assert_eq!((p.x, p.y), (0, 0));
    assert_eq!(s.get_cell(0, 0), Some(CellState::Owned(1)));
}

#[test]
fn claimed_cells_never_decrease() {
    let mut s = create_initial_state(3, 2).unwrap();
    join(&mut s).unwrap();
    join(&mut s).unwrap();
    let owned_total = |s: &GameState| s.count_owned_by(1) + s.count_owned_by(2);
    let mut last = owned_total(&s);
    let script = [
        (1, Direction::Left),
        (2, Direction::Left),
        (1, Direction::Right),
        (1, Direction::Up),
        (1, Direction::Right),
        (2, Direction::Right),
        (1, Direction::Down),
    ];
    for (id, dir) in script {
        // Some of these moves are clamped or blocked; claimed cells must
        // never decrease either way.
        let _ = move_player(&mut s, id, dir);
        let now = owned_total(&s);
        assert!(now >= last);
        last = now;
    }
}

#[test]
fn join_rejected_once_started_and_after_finish() {
    let mut s = create_initial_state(15, 15).unwrap();
    join(&mut s).unwrap();
    join(&mut s).unwrap();
    assert_eq!(s.status, GameStatus::InProgress);
    // The match auto-started at two players, so a third join is rejected and
    // changes nothing.
    let before_players = s.players.len();
    assert_eq!(join(&mut s), Err(JoinError::Rejected));
    assert_eq!(s.players.len(), before_players);
    assert_eq!(s.status, GameStatus::InProgress);
    assert!(s.get_player(3).is_none());
}

#[test]
fn full_match_on_tiny_grid_finishes() {
    // 3x2 grid: starting coordinates are (1,0), (1,1), (0,1), (2,1).
    let mut s = create_initial_state(3, 2).unwrap();
    let a = join(&mut s).unwrap();
    assert_eq!((a.x, a.y), (1, 0));
    let b = join(&mut s).unwrap();
    assert_eq!((b.x, b.y), (1, 1));
    assert_eq!(s.status, GameStatus::InProgress);

    assert_eq!(move_player(&mut s, 1, Direction::Left), Ok(())); // A claims (0,0)
    assert_eq!(move_player(&mut s, 2, Direction::Left), Ok(())); // B claims (0,1)
    assert_eq!(s.status, GameStatus::InProgress);
    assert_eq!(move_player(&mut s, 1, Direction::Right), Ok(())); // back onto own (1,0)
    assert_eq!(move_player(&mut s, 1, Direction::Right), Ok(())); // A claims (2,0)
    assert_eq!(s.status, GameStatus::InProgress);
    assert!(s.has_neutral_cell());
    assert_eq!(move_player(&mut s, 1, Direction::Down), Ok(())); // A claims (2,1): grid full

    // The end-of-game check runs immediately after the move.
    assert!(!s.has_neutral_cell());
    assert_eq!(s.status, GameStatus::Finished);

    // Nothing works on a finished match.
    assert_eq!(join(&mut s), Err(JoinError::Rejected));
    assert_eq!(move_player(&mut s, 1, Direction::Up), Err(MoveError::NotInProgress));

    // A owns (0,0), (1,0), (2,0), (2,1); B owns (0,1), (1,1).
    assert_eq!(s.count_owned_by(1), 4);
    assert_eq!(s.count_owned_by(2), 2);
}

#[test]
fn error_kinds_and_their_order() {
    let mut s = create_initial_state(15, 15).unwrap();
    // Moving while waiting: NotInProgress, even with a malformed direction
    // token — the status is checked first.
    assert_eq!(
        handle_move(&mut s, 1, "NORTH"),
        Err(MoveError::NotInProgress)
    );
    join(&mut s).unwrap();
    join(&mut s).unwrap();
    // Unknown player id is checked before the direction token.
    assert_eq!(handle_move(&mut s, 9, "NORTH"), Err(MoveError::UnknownPlayer));
    assert_eq!(handle_move(&mut s, 0, "DOWN"), Err(MoveError::UnknownPlayer));
    // Malformed token on a running match.
    assert_eq!(
        handle_move(&mut s, 1, "NORTH"),
        Err(MoveError::UnknownDirection)
    );
    assert_eq!(handle_move(&mut s, 1, "down"), Err(MoveError::UnknownDirection));
    assert_eq!(handle_move(&mut s, 1, ""), Err(MoveError::UnknownDirection));
    // A recognized token moves.
    assert_eq!(handle_move(&mut s, 1, "DOWN"), Ok(()));
    let p = s.get_player(1).unwrap();
    assert_eq!((p.x, p.y), (7, 1));
}

#[test]
fn parse_direction_recognizes_exactly_four_tokens() {
    assert_eq!(parse_direction("UP"), Some(Direction::Up));
    assert_eq!(parse_direction("DOWN"), Some(Direction::Down));
    assert_eq!(parse_direction("LEFT"), Some(Direction::Left));
    assert_eq!(parse_direction("RIGHT"), Some(Direction::Right));
    assert_eq!(parse_direction("up"), None);
    assert_eq!(parse_direction("NORTH"), None);
    assert_eq!(parse_direction(""), None);
    assert_eq!(parse_direction("UP "), None);
}

#[test]
fn join_assigns_palette_colors_in_order() {
    let mut s = create_initial_state(15, 15).unwrap();
    let a = join(&mut s).unwrap();
    assert_eq!(a.color, "#FF5733");
    let b = join(&mut s).unwrap();
    assert_eq!(b.color, "#33C4FF");
    assert_eq!(s.get_player(1).unwrap().color, "#FF5733");
    assert_eq!(s.get_player(2).unwrap().color, "#33C4FF");
}

#[test]
fn snapshot_is_a_deep_equal_copy() {
    let mut s = create_initial_state(15, 15).unwrap();
    join(&mut s).unwrap();
    join(&mut s).unwrap();
    move_player(&mut s, 1, Direction::Down).unwrap();
    let c: GameState = s.snapshot();
    assert_eq!(c.status, s.status);
    assert_eq!(c.width, s.width);
    assert_eq!(c.height, s.height);
    assert_eq!(c.grid, s.grid);
    assert_eq!(c.players, s.players);
}

#[test]
fn is_well_formed_accepts_reachable_and_rejects_tampered_states() {
    let mut s = create_initial_state(15, 15).unwrap();
    assert!(s.is_well_formed());
    join(&mut s).unwrap();
    assert!(s.is_well_formed());
    join(&mut s).unwrap();
    move_player(&mut s, 1, Direction::Down).unwrap();
    assert!(s.is_well_formed());

    // A match claiming to run with no players.
    let mut bad = s.snapshot();
    bad.players.clear();
    assert!(!bad.is_well_formed());

    // A grid that lost a row.
    let mut bad = s.snapshot();
    bad.grid.pop();
    assert!(!bad.is_well_formed());

    // An owned cell referencing a player that never joined.
    let mut bad = s.snapshot();
    bad.grid[3][3] = CellState::Owned(7);
    assert!(!bad.is_well_formed());

    // A status that desynced from the grid.
    let mut bad = s.snapshot();
    bad.status = GameStatus::Finished;
    assert!(!bad.is_well_formed());

    // A degenerate configuration.
    assert!(create_initial_state(3, 2).unwrap().is_well_formed());
}
