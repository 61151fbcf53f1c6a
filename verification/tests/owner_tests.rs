use game_kernel::engine::move_player;
use game_kernel::owner::StateOwner;
use game_kernel::types::{
    CellState, Direction, GameStatus, JoinError, MoveError, MovePayload, ReplaceError,
};

fn payload(id: u8, dir: &str) -> MovePayload {
    MovePayload { player_id: id, direction: dir.to_string() }
}

#[test]
fn owner_serializes_join_and_commands() {
    let mut owner = StateOwner::new(15, 15).unwrap();
    assert_eq!(owner.revision(), 0);

    let a = owner.join().unwrap();
    assert_eq!(a.id, 1);
    assert_eq!(owner.revision(), 1);
    let b = owner.join().unwrap();
    assert_eq!(b.id, 2);
    assert_eq!(owner.revision(), 2);

    // A rejected join mutates nothing and keeps the revision.
    assert_eq!(owner.join(), Err(JoinError::Rejected));
    assert_eq!(owner.revision(), 2);

    // The command path: the owner validates and applies the move itself and
    // returns the updated state.
    let updated = owner.apply_command(&payload(1, "DOWN")).unwrap();
    assert_eq!(updated.get_cell(7, 1), Some(CellState::Owned(1)));
    assert_eq!(owner.revision(), 3);

    // A rejected command mutates nothing and keeps the revision.
    assert_eq!(
        owner.apply_command(&payload(1, "NORTH")).err(),
        Some(MoveError::UnknownDirection)
    );
    assert_eq!(owner.revision(), 3);

    let (snapshot, rev) = owner.query_state();
    assert_eq!(rev, 3);
    assert_eq!(snapshot.get_cell(7, 1), Some(CellState::Owned(1)));
    assert_eq!(snapshot.status, GameStatus::InProgress);
}

#[test]
fn query_is_a_snapshot_not_a_handle() {
    let mut owner = StateOwner::new(15, 15).unwrap();
    owner.join().unwrap();
    owner.join().unwrap();
    let (mut copy, _) = owner.query_state();
    // Mutating the snapshot must not touch the authoritative state.
    move_player(&mut copy, 1, Direction::Down).unwrap();
    let (fresh, _) = owner.query_state();
    assert_eq!(fresh.get_cell(7, 1), Some(CellState::Neutral));
}

#[test]
fn replace_detects_lost_updates() {
    let mut owner = StateOwner::new(15, 15).unwrap();
    owner.join().unwrap();
    owner.join().unwrap();

    // Two clients read the same state and revision.
    let (mut read1, rev1) = owner.query_state();
    let (mut read2, rev2) = owner.query_state();
    assert_eq!(rev1, rev2);

    // Both compute a move locally.
    move_player(&mut read1, 1, Direction::Down).unwrap();
    move_player(&mut read2, 2, Direction::Up).unwrap();

    // The first write lands; the second is stale and is refused, so player
    // 1's claim is not silently overwritten.
    assert_eq!(owner.replace_if_current(read1, rev1), Ok(()));
    assert_eq!(
        owner.replace_if_current(read2, rev2),
        Err(ReplaceError::OptimisticConflict)
    );
    let (s, rev) = owner.query_state();
    assert_eq!(s.get_cell(7, 1), Some(CellState::Owned(1)));
    assert_eq!(s.get_cell(7, 13), Some(CellState::Neutral));

    // The loser re-fetches, recomputes and retries; now both moves are in.
    let (mut retry, retry_rev) = owner.query_state();
    assert_eq!(retry_rev, rev);
    move_player(&mut retry, 2, Direction::Up).unwrap();
    assert_eq!(owner.replace_if_current(retry, retry_rev), Ok(()));
    let (s, _) = owner.query_state();
    assert_eq!(s.get_cell(7, 1), Some(CellState::Owned(1)));
    assert_eq!(s.get_cell(7, 13), Some(CellState::Owned(2)));
}

#[test]
fn nonconflicting_commands_agree_in_either_order() {
    // The serialized orders of two legal, non-conflicting moves give the
    // same state.
    let mut first = StateOwner::new(15, 15).unwrap();
    first.join().unwrap();
    first.join().unwrap();
    let mut second = StateOwner::new(15, 15).unwrap();
    second.join().unwrap();
    second.join().unwrap();

    first.apply_command(&payload(1, "DOWN")).unwrap();
    first.apply_command(&payload(2, "UP")).unwrap();
    second.apply_command(&payload(2, "UP")).unwrap();
    second.apply_command(&payload(1, "DOWN")).unwrap();

    let (a, _) = first.query_state();
    let (b, _) = second.query_state();
    assert_eq!(a.status, b.status);
    assert_eq!(a.grid, b.grid);
    assert_eq!(a.players, b.players);
}

#[test]
fn restart_resets_state_and_advances_revision() {
    let mut owner = StateOwner::new(15, 15).unwrap();
    owner.join().unwrap();
    owner.join().unwrap();
    owner.apply_command(&payload(1, "DOWN")).unwrap();
    let rev_before = owner.revision();

    owner.restart();
    assert_eq!(owner.revision(), rev_before + 1);
    let (s, _) = owner.query_state();
    assert_eq!(s.status, GameStatus::WaitingForPlayers);
    assert_eq!(s.width, 15);
    assert_eq!(s.height, 15);
    assert!(s.get_player(1).is_none());
    for y in 0..15 {
        for x in 0..15 {
            assert_eq!(s.get_cell(x, y), Some(CellState::Neutral));
        }
    }
}

#[test]
fn owner_rejects_degenerate_configuration() {
    assert!(StateOwner::new(1, 1).is_err());
    assert!(StateOwner::new(2, 2).is_err());
}
