//! The engine operations: joining a match and validating and applying moves.
//! Each operation is an atomic read-modify-write on a `&mut GameState`; a
//! rejected operation leaves the state untouched.

use vstd::prelude::*;

use crate::model::{
    cell_at, dest_of, direction_of, has_neutral, has_player, lemma_spec_join_wf,
    lemma_spec_move_wf, lemma_start_pos_facts, max_players, player_of, spec_handle_move, spec_join,
    spec_move, wf, PlayerModel, StateModel,
};
use crate::state::{
    grid_model, player_model, scan_has_neutral, set_cell, start_position, player_color, GameState,
};
use crate::types::{CellState, Direction, GameStatus, JoinError, MoveError, Player, PlayerId};
use vstd::pervasive::VecAdditionalExecFns;

verus! {

/// Adds a player to the match. Rejected exactly when the match is no longer
/// waiting for players or the cap of four is reached; on success the new
/// player receives the next sequential id, the fixed starting coordinate and
/// palette color for that id, their starting cell is claimed, and the match
/// starts once the player count reaches exactly two.
pub fn join(state: &mut GameState) -> (r: Result<Player, JoinError>)
    requires
        wf(old(state)@),
    ensures
        wf(final(state)@),
        r is Err <==> (old(state)@.status != GameStatus::WaitingForPlayers
            || old(state)@.players.len() >= max_players()),
        match r {
            Ok(p) => spec_join(old(state)@) == Ok::<(StateModel, PlayerModel), JoinError>(
                (final(state)@, player_model(p)),
            ),
            Err(e) => e == JoinError::Rejected && *final(state) == *old(state),
        },
{
    if !matches!(state.status, GameStatus::WaitingForPlayers) {
        return Err(JoinError::Rejected);
    }
    if state.players.len() >= 4 {
        return Err(JoinError::Rejected);
    }
    let id = (state.players.len() + 1) as PlayerId;
    let (sx, sy) = start_position(id, state.width, state.height);
    proof {
        lemma_start_pos_facts(id as int, old(state)@.width, old(state)@.height);
        assert(old(state)@.grid[sy as int].len() == old(state)@.width);
        assert(state.grid@[sy as int]@.len() == old(state)@.width);
    }
    let color = player_color(id);
    set_cell(&mut state.grid, sx, sy, CellState::Owned(id));
    let stored = Player { id, x: sx, y: sy, color };
    let returned = Player { id, x: sx, y: sy, color: stored.color.clone() };
    state.players.push(stored);
    if state.players.len() == 2 {
        state.status = GameStatus::InProgress;
    }
    proof {
        let mj = spec_join(old(state)@)->Ok_0.0;
        assert(state@.players =~= mj.players);
        assert(state@ =~~= mj);
        lemma_spec_join_wf(old(state)@);
    }
    Ok(returned)
}

/// Validates and applies one step of player `player_id` in an already-parsed
/// direction. Rejections, in order: the match is not in progress; the player
/// id is unknown; the clamped destination cell is owned by a rival. On
/// success the destination cell (which may equal the current cell, when the
/// step was clamped at a grid edge) is claimed for the mover, the mover's
/// position is updated, and the end-of-game check runs on the updated grid.
pub fn move_player(state: &mut GameState, player_id: PlayerId, dir: Direction) -> (r: Result<
    (),
    MoveError,
>)
    requires
        wf(old(state)@),
    ensures
        wf(final(state)@),
        match r {
            Ok(()) => spec_move(old(state)@, player_id, dir) == Ok::<StateModel, MoveError>(
                final(state)@,
            ),
            Err(e) => spec_move(old(state)@, player_id, dir) == Err::<StateModel, MoveError>(e)
                && *final(state) == *old(state),
        },
        // After a successful move the mover stands on the destination cell
        // and owns it.
        r is Ok ==> ({
            let pos = dest_of(
                player_of(old(state)@, player_id),
                dir,
                old(state)@.width,
                old(state)@.height,
            );
            &&& player_of(final(state)@, player_id).x == pos.0
            &&& player_of(final(state)@, player_id).y == pos.1
            &&& cell_at(final(state)@, pos.0 as int, pos.1 as int) == CellState::Owned(player_id)
        }),
        // The finished status is recomputed from the updated grid after
        // every move, so it is `Finished` exactly when no neutral cell is
        // left.
        r is Ok ==> (final(state)@.status == GameStatus::Finished <==> !has_neutral(
            final(state)@,
        )),
{
    if !matches!(state.status, GameStatus::InProgress) {
        return Err(MoveError::NotInProgress);
    }
    if player_id < 1 || (player_id as usize) > state.players.len() {
        return Err(MoveError::UnknownPlayer);
    }
    let idx = (player_id - 1) as usize;
    let px = state.players[idx].x;
    let py = state.players[idx].y;
    let (nx, ny) = match dir {
        Direction::Up => (px, if py > 0 { py - 1 } else { py }),
        Direction::Down => (px, if py < state.height - 1 { py + 1 } else { py }),
        Direction::Left => (if px > 0 { px - 1 } else { px }, py),
        Direction::Right => (if px < state.width - 1 { px + 1 } else { px }, py),
    };
    proof {
        assert(player_of(old(state)@, player_id) == player_model(old(state).players@[idx as int]));
        assert(old(state)@.grid[ny as int].len() == old(state)@.width);
        assert(state.grid@[ny as int]@.len() == old(state)@.width);
    }
    let dest = state.grid[ny][nx];
    if !(matches!(dest, CellState::Neutral) || matches!(dest, CellState::Owned(q) if q == player_id)) {
        return Err(MoveError::Blocked);
    }
    set_cell(&mut state.grid, nx, ny, CellState::Owned(player_id));
    let color = state.players[idx].color.clone();
    state.players.set(idx, Player { id: player_id, x: nx, y: ny, color });
    proof {
        assert(state.grid@.len() == old(state).grid@.len()) by {
            assert(grid_model(state.grid@).len() == state.grid@.len());
        }
        assert forall|y: int| 0 <= y < state.height implies (#[trigger] state.grid@[y])@.len()
            == state.width by {
            assert(grid_model(state.grid@)[y] == state.grid@[y]@);
            assert(grid_model(old(state).grid@)[y].len() == old(state)@.width);
            if y != ny as int {
                assert(grid_model(state.grid@)[y] == grid_model(old(state).grid@)[y]);
            }
        }
    }
    let still_open = scan_has_neutral(&state.grid, state.width, state.height);
    state.status = if still_open {
        GameStatus::InProgress
    } else {
        GameStatus::Finished
    };
    proof {
        let mm = spec_move(old(state)@, player_id, dir)->Ok_0;
        assert(state@.players =~= mm.players);
        assert(state@ =~~= mm);
        lemma_spec_move_wf(old(state)@, player_id, dir);
    }
    Ok(())
}

/// Parses a transport direction token; anything but the four recognized
/// values is refused.
pub fn parse_direction(token: &str) -> (r: Option<Direction>)
    ensures
        r == direction_of(token@),
{
    let t = token.to_owned();
    if t == "UP".to_owned() {
        Some(Direction::Up)
    } else if t == "DOWN".to_owned() {
        Some(Direction::Down)
    } else if t == "LEFT".to_owned() {
        Some(Direction::Left)
    } else if t == "RIGHT".to_owned() {
        Some(Direction::Right)
    } else {
        None
    }
}

/// The move operation as the transport layer sees it, with the direction
/// still a token. The token is inspected only after the status and the
/// player id, matching the order of the in-progress rejections, so a
/// malformed token on a match that is not running reports `NotInProgress`.
pub fn handle_move(state: &mut GameState, player_id: PlayerId, direction: &str) -> (r: Result<
    (),
    MoveError,
>)
    requires
        wf(old(state)@),
    ensures
        wf(final(state)@),
        match r {
            Ok(()) => spec_handle_move(old(state)@, player_id, direction@) == Ok::<
                StateModel,
                MoveError,
            >(final(state)@),
            Err(e) => spec_handle_move(old(state)@, player_id, direction@) == Err::<
                StateModel,
                MoveError,
            >(e) && *final(state) == *old(state),
        },
{
    if !matches!(state.status, GameStatus::InProgress) {
        return Err(MoveError::NotInProgress);
    }
    if player_id < 1 || (player_id as usize) > state.players.len() {
        return Err(MoveError::UnknownPlayer);
    }
    match parse_direction(direction) {
        None => Err(MoveError::UnknownDirection),
        Some(d) => move_player(state, player_id, d),
    }
}

} // verus!
