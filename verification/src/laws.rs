//! The engine's laws: properties of the join/move transitions, proved once
//! over the mathematical model. The executable operations are each proved
//! equal to those transitions, so these laws carry over to every run.

use vstd::prelude::*;

use crate::model::{
    cell_at, dest_of, grid_owned_upto, has_neutral, has_player, lemma_spec_move_wf, owned_total,
    player_of, row_owned_upto, spec_move, wf, StateModel,
};
use crate::types::{CellState, Direction, GameStatus, PlayerId};

verus! {

/// Two row sequences that agree on their first `n` cells hold the same
/// number of claimed cells there.
proof fn lemma_row_owned_upto_agree(a: Seq<CellState>, b: Seq<CellState>, n: int)
    requires
        forall|i: int| 0 <= i < n ==> a[i] == b[i],
    ensures
        row_owned_upto(a, n) == row_owned_upto(b, n),
    decreases n,
{
    if n > 0 {
        lemma_row_owned_upto_agree(a, b, n - 1);
    }
}

/// Overwriting one cell of a row exchanges exactly that cell's contribution
/// to the claimed count.
proof fn lemma_row_owned_upto_update(row: Seq<CellState>, x: int, v: CellState, n: int)
    requires
        0 <= x < n <= row.len(),
    ensures
        row_owned_upto(row.update(x, v), n) + (if row[x] matches CellState::Owned(_) {
            1nat
        } else {
            0nat
        }) == row_owned_upto(row, n) + (if v matches CellState::Owned(_) {
            1nat
        } else {
            0nat
        }),
    decreases n,
{
    if x == n - 1 {
        lemma_row_owned_upto_agree(row.update(x, v), row, n - 1);
    } else {
        lemma_row_owned_upto_update(row, x, v, n - 1);
    }
}

/// Two grids that agree on their first `n` rows hold the same number of
/// claimed cells there.
proof fn lemma_grid_owned_upto_agree(a: Seq<Seq<CellState>>, b: Seq<Seq<CellState>>, n: int)
    requires
        forall|i: int| 0 <= i < n ==> a[i] == b[i],
    ensures
        grid_owned_upto(a, n) == grid_owned_upto(b, n),
    decreases n,
{
    if n > 0 {
        lemma_grid_owned_upto_agree(a, b, n - 1);
    }
}

/// Replacing one row of a grid exchanges exactly that row's contribution to
/// the claimed count.
proof fn lemma_grid_owned_upto_update(grid: Seq<Seq<CellState>>, y: int, newrow: Seq<CellState>, n: int)
    requires
        0 <= y < n <= grid.len(),
    ensures
        grid_owned_upto(grid.update(y, newrow), n) + row_owned_upto(
            grid[y],
            grid[y].len() as int,
        ) == grid_owned_upto(grid, n) + row_owned_upto(newrow, newrow.len() as int),
    decreases n,
{
    if y == n - 1 {
        lemma_grid_owned_upto_agree(grid.update(y, newrow), grid, n - 1);
    } else {
        lemma_grid_owned_upto_update(grid, y, newrow, n - 1);
    }
}

/// Across one successful move the count of claimed cells never decreases:
/// claiming a neutral cell adds exactly one, re-claiming the mover's own
/// cell changes nothing. Claims are never reverted.
pub proof fn lemma_move_never_unclaims(m: StateModel, pid: PlayerId, d: Direction)
    requires
        wf(m),
        spec_move(m, pid, d) is Ok,
    ensures
        owned_total(spec_move(m, pid, d)->Ok_0) == owned_total(m) + (if cell_at(
            m,
            dest_of(player_of(m, pid), d, m.width, m.height).0 as int,
            dest_of(player_of(m, pid), d, m.width, m.height).1 as int,
        ) == CellState::Neutral {
            1nat
        } else {
            0nat
        }),
        owned_total(spec_move(m, pid, d)->Ok_0) >= owned_total(m),
{
    let pos = dest_of(player_of(m, pid), d, m.width, m.height);
    let x = pos.0 as int;
    let y = pos.1 as int;
    let row = m.grid[y];
    let newrow = row.update(x, CellState::Owned(pid));
    let m1 = spec_move(m, pid, d)->Ok_0;
    assert(m.grid[y].len() == m.width);
    lemma_row_owned_upto_update(row, x, CellState::Owned(pid), m.width as int);
    lemma_grid_owned_upto_update(m.grid, y, newrow, m.grid.len() as int);
    assert(m1.grid == m.grid.update(y, newrow));
    assert(m1.grid.len() == m.grid.len());
}

/// A join never unclaims either: it claims the new player's starting cell
/// and touches nothing else, so the count of claimed cells cannot decrease
/// at any point in the life of a match.
pub proof fn lemma_join_never_unclaims(m: StateModel)
    requires
        wf(m),
        crate::model::spec_join(m) is Ok,
    ensures
        owned_total(crate::model::spec_join(m)->Ok_0.0) >= owned_total(m),
{
    let pos = crate::model::start_pos(m.players.len() as int + 1, m.width, m.height);
    crate::model::lemma_start_pos_facts(m.players.len() as int + 1, m.width, m.height);
    let x = pos.0 as int;
    let y = pos.1 as int;
    let row = m.grid[y];
    let id = (m.players.len() + 1) as PlayerId;
    let newrow = row.update(x, CellState::Owned(id));
    let m1 = crate::model::spec_join(m)->Ok_0.0;
    assert(m.grid[y].len() == m.width);
    lemma_row_owned_upto_update(row, x, CellState::Owned(id), m.width as int);
    lemma_grid_owned_upto_update(m.grid, y, newrow, m.grid.len() as int);
    assert(m1.grid == m.grid.update(y, newrow));
    assert(m1.grid.len() == m.grid.len());
}

/// One step of a command stream: a rejected move leaves the state as it was.
pub open spec fn step_command(m: StateModel, cmd: (PlayerId, Direction)) -> StateModel {
    match spec_move(m, cmd.0, cmd.1) {
        Ok(m1) => m1,
        Err(_) => m,
    }
}

/// The state after a stream of move commands, applying each move that
/// succeeds and leaving the state untouched on each rejection.
pub open spec fn apply_commands(m: StateModel, cmds: Seq<(PlayerId, Direction)>) -> StateModel
    decreases cmds.len(),
{
    if cmds.len() == 0 {
        m
    } else {
        apply_commands(step_command(m, cmds[0]), cmds.drop_first())
    }
}

/// Across any sequence of moves — successful or rejected — the count of
/// claimed cells is monotonically non-decreasing, and the state stays
/// well-formed.
pub proof fn lemma_commands_never_unclaim(m: StateModel, cmds: Seq<(PlayerId, Direction)>)
    requires
        wf(m),
    ensures
        wf(apply_commands(m, cmds)),
        owned_total(apply_commands(m, cmds)) >= owned_total(m),
    decreases cmds.len(),
{
    if cmds.len() > 0 {
        let m1 = step_command(m, cmds[0]);
        if spec_move(m, cmds[0].0, cmds[0].1) is Ok {
            lemma_spec_move_wf(m, cmds[0].0, cmds[0].1);
            lemma_move_never_unclaims(m, cmds[0].0, cmds[0].1);
        }
        lemma_commands_never_unclaim(m1, cmds.drop_first());
    }
}

/// A move in a direction that would leave the grid is never rejected: the
/// destination clamps to the mover's own cell, which the mover owns under
/// the invariant, so the move succeeds and the state — position, grid and
/// status — is exactly as before.
pub proof fn lemma_boundary_move_succeeds(m: StateModel, pid: PlayerId, d: Direction)
    requires
        wf(m),
        m.status == GameStatus::InProgress,
        has_player(m, pid),
        dest_of(player_of(m, pid), d, m.width, m.height) == (
            player_of(m, pid).x,
            player_of(m, pid).y,
        ),
    ensures
        spec_move(m, pid, d) is Ok,
        spec_move(m, pid, d)->Ok_0 == m,
{
    let p = player_of(m, pid);
    let x = p.x as int;
    let y = p.y as int;
    assert(p.id == pid);
    assert(cell_at(m, x, y) == CellState::Owned(pid));
    let m1 = spec_move(m, pid, d)->Ok_0;
    assert(m1.grid =~~= m.grid);
    assert(m1.players =~~= m.players);
    assert(has_neutral(m1) == has_neutral(m));
    assert(m1 =~~= m);
}

/// Moving onto a cell owned by another player always yields `Blocked`:
/// territory cannot be invaded. (Every rejected executable move also leaves
/// the concrete state untouched — that is part of the move operation's
/// contract.)
pub proof fn lemma_rival_cell_blocks(m: StateModel, pid: PlayerId, d: Direction, q: PlayerId)
    requires
        wf(m),
        m.status == GameStatus::InProgress,
        has_player(m, pid),
        cell_at(
            m,
            dest_of(player_of(m, pid), d, m.width, m.height).0 as int,
            dest_of(player_of(m, pid), d, m.width, m.height).1 as int,
        ) == CellState::Owned(q),
        q != pid,
    ensures
        spec_move(m, pid, d) == Err::<StateModel, crate::types::MoveError>(
            crate::types::MoveError::Blocked,
        ),
{
}

/// The rank of a status in the forward-only lifecycle.
pub open spec fn status_rank(s: GameStatus) -> int {
    match s {
        GameStatus::WaitingForPlayers => 0,
        GameStatus::InProgress => 1,
        GameStatus::Finished => 2,
    }
}

/// A move never turns the status back: it keeps the match in progress or
/// finishes it.
pub proof fn lemma_move_status_forward(m: StateModel, pid: PlayerId, d: Direction)
    requires
        wf(m),
        spec_move(m, pid, d) is Ok,
    ensures
        status_rank(spec_move(m, pid, d)->Ok_0.status) >= status_rank(m.status),
{
}

/// A join never turns the status back: the match keeps waiting or starts.
pub proof fn lemma_join_status_forward(m: StateModel)
    requires
        wf(m),
        crate::model::spec_join(m) is Ok,
    ensures
        status_rank(crate::model::spec_join(m)->Ok_0.0.status) >= status_rank(m.status),
{
}

/// Serializing two legal, non-conflicting moves — distinct players, distinct
/// destination cells, each leaving the match running on its own — gives the
/// same result in either order: both moves succeed, neither claim is lost,
/// and all later readers observe the same state. This is the guarantee the
/// state owner's single-writer serialization relies on; a move that finishes
/// the match is excluded, since after it the rival's move is refused as
/// `NotInProgress`.
pub proof fn lemma_concurrent_moves_commute(
    m: StateModel,
    p1: PlayerId,
    d1: Direction,
    p2: PlayerId,
    d2: Direction,
)
    requires
        wf(m),
        p1 != p2,
        spec_move(m, p1, d1) is Ok,
        spec_move(m, p2, d2) is Ok,
        dest_of(player_of(m, p1), d1, m.width, m.height) != dest_of(
            player_of(m, p2),
            d2,
            m.width,
            m.height,
        ),
        spec_move(m, p1, d1)->Ok_0.status == GameStatus::InProgress,
        spec_move(m, p2, d2)->Ok_0.status == GameStatus::InProgress,
    ensures
        spec_move(spec_move(m, p1, d1)->Ok_0, p2, d2) is Ok,
        spec_move(spec_move(m, p2, d2)->Ok_0, p1, d1) is Ok,
        spec_move(spec_move(m, p1, d1)->Ok_0, p2, d2)->Ok_0 == spec_move(
            spec_move(m, p2, d2)->Ok_0,
            p1,
            d1,
        )->Ok_0,
        cell_at(
            spec_move(spec_move(m, p1, d1)->Ok_0, p2, d2)->Ok_0,
            dest_of(player_of(m, p1), d1, m.width, m.height).0 as int,
            dest_of(player_of(m, p1), d1, m.width, m.height).1 as int,
        ) == CellState::Owned(p1),
        cell_at(
            spec_move(spec_move(m, p1, d1)->Ok_0, p2, d2)->Ok_0,
            dest_of(player_of(m, p2), d2, m.width, m.height).0 as int,
            dest_of(player_of(m, p2), d2, m.width, m.height).1 as int,
        ) == CellState::Owned(p2),
{
    let pos1 = dest_of(player_of(m, p1), d1, m.width, m.height);
    let pos2 = dest_of(player_of(m, p2), d2, m.width, m.height);
    let m1 = spec_move(m, p1, d1)->Ok_0;
    let m2 = spec_move(m, p2, d2)->Ok_0;
    assert(player_of(m1, p2) == player_of(m, p2));
    assert(player_of(m2, p1) == player_of(m, p1));
    assert(cell_at(m1, pos2.0 as int, pos2.1 as int) == cell_at(m, pos2.0 as int, pos2.1 as int));
    assert(cell_at(m2, pos1.0 as int, pos1.1 as int) == cell_at(m, pos1.0 as int, pos1.1 as int));
    let m12 = spec_move(m1, p2, d2)->Ok_0;
    let m21 = spec_move(m2, p1, d1)->Ok_0;
    assert(m12.grid =~~= m21.grid);
    assert(m12.players =~~= m21.players);
    assert(m12 =~~= m21);
}

} // verus!
