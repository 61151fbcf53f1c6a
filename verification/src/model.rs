//! Mathematical model of the game: ghost state values, the well-formedness
//! invariant, and the join/move transition functions that every executable
//! operation is proved against.

use vstd::prelude::*;

use crate::types::{CellState, Direction, GameStatus, JoinError, MoveError, PlayerId};

verus! {

/// Mathematical value of one player: identity, position, display color.
#[verifier::ext_equal]
pub ghost struct PlayerModel {
    pub id: PlayerId,
    pub x: nat,
    pub y: nat,
    pub color: Seq<char>,
}

/// Mathematical value of the whole game state. The grid is a sequence of
/// rows; row `y` holds the cells of that horizontal line, indexed by `x`.
#[verifier::ext_equal]
pub ghost struct StateModel {
    pub status: GameStatus,
    pub width: nat,
    pub height: nat,
    pub grid: Seq<Seq<CellState>>,
    pub players: Seq<PlayerModel>,
}

/// The configured player cap: the starting-position and color tables have
/// exactly four entries.
pub open spec fn max_players() -> nat {
    4
}

/// The fixed starting coordinate for player `id` (1 through 4): top middle,
/// bottom middle, middle left, middle right of the grid.
pub open spec fn start_pos(id: int, width: nat, height: nat) -> (nat, nat) {
    if id == 1 {
        (width / 2, 0nat)
    } else if id == 2 {
        (width / 2, (height - 1) as nat)
    } else if id == 3 {
        (0nat, height / 2)
    } else {
        ((width - 1) as nat, height / 2)
    }
}

/// The fixed display palette; index `id` pairs with player id `id`.
pub open spec fn color_of(id: int) -> Seq<char> {
    if id == 1 {
        "#FF5733"@
    } else if id == 2 {
        "#33C4FF"@
    } else if id == 3 {
        "#A2FF33"@
    } else {
        "#F733FF"@
    }
}

/// A grid configuration is accepted only if the four starting coordinates
/// are pairwise distinct (which also forces them in bounds) and the cell
/// count fits the machine.
pub open spec fn dims_ok(width: nat, height: nat) -> bool {
    &&& width >= 2
    &&& height >= 2
    &&& width * height <= usize::MAX as nat
    &&& forall|i: int, j: int|
        1 <= i < j <= 4 ==> start_pos(i, width, height) != start_pos(j, width, height)
}

/// The cell of `m` at column `x`, row `y`.
pub open spec fn cell_at(m: StateModel, x: int, y: int) -> CellState {
    m.grid[y][x]
}

/// A coordinate pair lies inside the grid.
pub open spec fn in_bounds(m: StateModel, x: int, y: int) -> bool {
    0 <= x < m.width && 0 <= y < m.height
}

/// Some cell of `grid` (with the given dimensions) is still unclaimed.
pub open spec fn grid_has_neutral(grid: Seq<Seq<CellState>>, width: nat, height: nat) -> bool {
    exists|x: int, y: int|
        0 <= x < width && 0 <= y < height && #[trigger] grid[y][x] == CellState::Neutral
}

/// Some cell of `m` is still unclaimed. The match is finished exactly when
/// this is false.
pub open spec fn has_neutral(m: StateModel) -> bool {
    grid_has_neutral(m.grid, m.width, m.height)
}

/// The player with id `id` is part of the match. Ids are dense (assigned
/// sequentially from 1), so membership is a range check.
pub open spec fn has_player(m: StateModel, id: PlayerId) -> bool {
    1 <= id && id as int <= m.players.len()
}

/// The player with id `id`; meaningful only when `has_player` holds.
pub open spec fn player_of(m: StateModel, id: PlayerId) -> PlayerModel {
    m.players[id - 1]
}

/// Well-formedness of a game state. Constructors establish it, every
/// operation preserves it, and it holds in all reachable states:
/// - the grid is a `height` by `width` matrix on an accepted configuration;
/// - at most four players, with dense sequential ids and in-bounds positions;
/// - each player stands on a cell they own (so no two players share a cell);
/// - every owned cell references a player that is part of the match;
/// - the match is in progress or finished only once two players have joined,
///   and a third join is impossible while waiting (the match auto-starts at
///   two), so at most one player exists while waiting;
/// - while waiting, players still stand on their starting coordinates and
///   the corner cell (0,0), which is never a starting coordinate, is still
///   neutral (so a join can never claim the last neutral cell);
/// - the status is `Finished` exactly when no neutral cell is left.
pub open spec fn wf(m: StateModel) -> bool {
    &&& dims_ok(m.width, m.height)
    &&& m.grid.len() == m.height
    &&& forall|y: int| 0 <= y < m.height ==> (#[trigger] m.grid[y]).len() == m.width
    &&& m.players.len() <= max_players()
    &&& forall|i: int| 0 <= i < m.players.len() ==> (#[trigger] m.players[i]).id == i + 1
    &&& forall|i: int|
        0 <= i < m.players.len() ==> (#[trigger] m.players[i]).x < m.width && m.players[i].y
            < m.height
    &&& forall|i: int|
        0 <= i < m.players.len() ==> cell_at(m, (#[trigger] m.players[i]).x as int, m.players[i].y as int)
            == CellState::Owned(m.players[i].id)
    &&& forall|x: int, y: int|
        in_bounds(m, x, y) ==> ((#[trigger] cell_at(m, x, y)) matches CellState::Owned(id) ==> 1
            <= id && id as int <= m.players.len())
    &&& m.status != GameStatus::WaitingForPlayers ==> m.players.len() >= 2
    &&& m.status == GameStatus::WaitingForPlayers ==> m.players.len() <= 1
    &&& m.status == GameStatus::WaitingForPlayers ==> forall|i: int|
        0 <= i < m.players.len() ==> ((#[trigger] m.players[i]).x as int, m.players[i].y as int)
            == (start_pos(i + 1, m.width, m.height).0 as int, start_pos(
            i + 1,
            m.width,
            m.height,
        ).1 as int)
    &&& m.status == GameStatus::WaitingForPlayers ==> cell_at(m, 0, 0) == CellState::Neutral
    &&& m.status == GameStatus::Finished <==> !has_neutral(m)
}

/// The freshly initialized state for an accepted configuration: all cells
/// neutral, no players, waiting for players.
pub open spec fn initial_model(width: nat, height: nat) -> StateModel {
    StateModel {
        status: GameStatus::WaitingForPlayers,
        width,
        height,
        grid: Seq::new(height, |y: int| Seq::new(width, |x: int| CellState::Neutral)),
        players: Seq::empty(),
    }
}

/// The join transition. Refused unless the match is still waiting for
/// players with the cap not reached; on success the new player gets the next
/// sequential id, the fixed starting coordinate and palette color for that
/// id, their starting cell is claimed, and the match starts once the count
/// reaches exactly two.
pub open spec fn spec_join(m: StateModel) -> Result<(StateModel, PlayerModel), JoinError> {
    if m.status != GameStatus::WaitingForPlayers || m.players.len() >= max_players() {
        Err(JoinError::Rejected)
    } else {
        let id = (m.players.len() + 1) as PlayerId;
        let pos = start_pos(id as int, m.width, m.height);
        let p = PlayerModel { id, x: pos.0, y: pos.1, color: color_of(id as int) };
        let grid1 = m.grid.update(
            pos.1 as int,
            m.grid[pos.1 as int].update(pos.0 as int, CellState::Owned(id)),
        );
        let status1 = if m.players.len() + 1 == 2 {
            GameStatus::InProgress
        } else {
            m.status
        };
        Ok(
            (
                StateModel {
                    status: status1,
                    width: m.width,
                    height: m.height,
                    grid: grid1,
                    players: m.players.push(p),
                },
                p,
            ),
        )
    }
}

/// The destination of a step from `p` in direction `d`, clamped at the grid
/// edges: moving against a boundary keeps the coordinate on that axis and is
/// never an error.
pub open spec fn dest_of(p: PlayerModel, d: Direction, width: nat, height: nat) -> (nat, nat) {
    match d {
        Direction::Up => (p.x, if p.y > 0 { (p.y - 1) as nat } else { p.y }),
        Direction::Down => (p.x, if p.y < height - 1 { (p.y + 1) as nat } else { p.y }),
        Direction::Left => (if p.x > 0 { (p.x - 1) as nat } else { p.x }, p.y),
        Direction::Right => (if p.x < width - 1 { (p.x + 1) as nat } else { p.x }, p.y),
    }
}

/// The state after a validated move of player `pid` to `(nx, ny)`: the
/// destination cell is claimed, the player's position is updated, and the
/// end-of-game check runs unconditionally on the updated grid.
pub open spec fn moved_state(m: StateModel, pid: PlayerId, nx: nat, ny: nat) -> StateModel {
    let grid1 = m.grid.update(ny as int, m.grid[ny as int].update(nx as int, CellState::Owned(pid)));
    let p = player_of(m, pid);
    StateModel {
        status: if grid_has_neutral(grid1, m.width, m.height) {
            GameStatus::InProgress
        } else {
            GameStatus::Finished
        },
        width: m.width,
        height: m.height,
        grid: grid1,
        players: m.players.update(
            pid - 1,
            PlayerModel { id: p.id, x: nx, y: ny, color: p.color },
        ),
    }
}

/// The move transition for an already-parsed direction. Rejections, in
/// order: the match is not in progress; the player id is unknown; the
/// clamped destination cell is owned by a different player. A legal
/// destination (neutral, or already owned by the mover) is claimed even when
/// the clamp made the step a positional no-op.
pub open spec fn spec_move(m: StateModel, pid: PlayerId, d: Direction) -> Result<
    StateModel,
    MoveError,
> {
    if m.status != GameStatus::InProgress {
        Err(MoveError::NotInProgress)
    } else if !has_player(m, pid) {
        Err(MoveError::UnknownPlayer)
    } else {
        let p = player_of(m, pid);
        let pos = dest_of(p, d, m.width, m.height);
        let c = cell_at(m, pos.0 as int, pos.1 as int);
        if c != CellState::Neutral && c != CellState::Owned(pid) {
            Err(MoveError::Blocked)
        } else {
            Ok(moved_state(m, pid, pos.0, pos.1))
        }
    }
}

/// Which direction a transport token names, if any.
pub open spec fn direction_of(token: Seq<char>) -> Option<Direction> {
    if token == "UP"@ {
        Some(Direction::Up)
    } else if token == "DOWN"@ {
        Some(Direction::Down)
    } else if token == "LEFT"@ {
        Some(Direction::Left)
    } else if token == "RIGHT"@ {
        Some(Direction::Right)
    } else {
        None
    }
}

/// How many of the first `n` cells of `row` are owned by player `id`.
pub open spec fn row_count_upto(row: Seq<CellState>, id: PlayerId, n: int) -> nat
    decreases n,
{
    if n <= 0 {
        0
    } else {
        row_count_upto(row, id, n - 1) + if row[n - 1] == CellState::Owned(id) {
            1nat
        } else {
            0nat
        }
    }
}

/// How many cells of `row` are owned by player `id`.
pub open spec fn row_count(row: Seq<CellState>, id: PlayerId) -> nat {
    row_count_upto(row, id, row.len() as int)
}

/// How many cells of the first `n` rows of `grid` are owned by player `id`.
pub open spec fn grid_count_upto(grid: Seq<Seq<CellState>>, id: PlayerId, n: int) -> nat
    decreases n,
{
    if n <= 0 {
        0
    } else {
        grid_count_upto(grid, id, n - 1) + row_count(grid[n - 1], id)
    }
}

/// Player `id`'s score: how many cells of `m` they own.
pub open spec fn count_owned_by_model(m: StateModel, id: PlayerId) -> nat {
    grid_count_upto(m.grid, id, m.grid.len() as int)
}

/// How many of the first `n` cells of `row` are owned by anyone.
pub open spec fn row_owned_upto(row: Seq<CellState>, n: int) -> nat
    decreases n,
{
    if n <= 0 {
        0
    } else {
        row_owned_upto(row, n - 1) + if row[n - 1] matches CellState::Owned(_) {
            1nat
        } else {
            0nat
        }
    }
}

/// How many cells of the first `n` rows of `grid` are owned by anyone.
pub open spec fn grid_owned_upto(grid: Seq<Seq<CellState>>, n: int) -> nat
    decreases n,
{
    if n <= 0 {
        0
    } else {
        grid_owned_upto(grid, n - 1) + row_owned_upto(grid[n - 1], grid[n - 1].len() as int)
    }
}

/// How many cells of `m` are claimed at all. Claims are never reverted, so
/// this never decreases over the life of a match.
pub open spec fn owned_total(m: StateModel) -> nat {
    grid_owned_upto(m.grid, m.grid.len() as int)
}

/// A cell's row-major slot number lies below the cell count of the grid.
pub proof fn lemma_cell_slot_bound(x: int, y: int, width: int, height: int)
    requires
        0 <= x < width,
        0 <= y < height,
    ensures
        y * width + x + 1 <= width * height,
{
    assert(y * width + x + 1 <= width * height) by (nonlinear_arith)
        requires
            0 <= x < width,
            0 <= y < height,
    ;
}

/// On an accepted configuration every starting coordinate is in bounds, and
/// none of them is the corner cell (0,0).
pub proof fn lemma_start_pos_facts(id: int, width: nat, height: nat)
    requires
        dims_ok(width, height),
        1 <= id <= 4,
    ensures
        start_pos(id, width, height).0 < width,
        start_pos(id, width, height).1 < height,
        start_pos(id, width, height) != (0nat, 0nat),
{
    assert(width / 2 >= 1 && width / 2 < width);
    assert(height / 2 >= 1 && height / 2 < height);
}

/// Joining preserves well-formedness; in particular a join can never claim
/// the last neutral cell, because the corner cell (0,0) is never a starting
/// coordinate and is still neutral while the match waits for players.
pub proof fn lemma_spec_join_wf(m: StateModel)
    requires
        wf(m),
        spec_join(m) is Ok,
    ensures
        wf(spec_join(m)->Ok_0.0),
{
    let id = (m.players.len() + 1) as PlayerId;
    let pos = start_pos(id as int, m.width, m.height);
    lemma_start_pos_facts(id as int, m.width, m.height);
    let m1 = spec_join(m)->Ok_0.0;
    assert forall|i: int| 0 <= i < m1.players.len() implies cell_at(
        m1,
        (#[trigger] m1.players[i]).x as int,
        m1.players[i].y as int,
    ) == CellState::Owned(m1.players[i].id) by {
        if i < m.players.len() {
            assert(m.players[i].id == i + 1);
            assert((m.players[i].x as int, m.players[i].y as int) == (
                start_pos(i + 1, m.width, m.height).0 as int,
                start_pos(i + 1, m.width, m.height).1 as int,
            ));
            assert(start_pos(i + 1, m.width, m.height) != pos);
            assert(cell_at(m, m.players[i].x as int, m.players[i].y as int) == CellState::Owned(
                m.players[i].id,
            ));
        }
    }
    assert forall|x: int, y: int| in_bounds(m1, x, y) implies ((#[trigger] cell_at(m1, x, y))
        matches CellState::Owned(q) ==> 1 <= q && q as int <= m1.players.len()) by {
        if (x, y) != (pos.0 as int, pos.1 as int) {
            assert(cell_at(m1, x, y) == cell_at(m, x, y));
        }
    }
    assert(cell_at(m1, 0, 0) == CellState::Neutral);
    assert(has_neutral(m1)) by {
        assert(m1.grid[0][0] == CellState::Neutral);
    }
}

/// A validated move preserves well-formedness. The end-of-game status is
/// recomputed from the updated grid, so the finished-iff-full invariant
/// holds immediately after every move.
pub proof fn lemma_spec_move_wf(m: StateModel, pid: PlayerId, d: Direction)
    requires
        wf(m),
        spec_move(m, pid, d) is Ok,
    ensures
        wf(spec_move(m, pid, d)->Ok_0),
{
    let p = player_of(m, pid);
    let pos = dest_of(p, d, m.width, m.height);
    let m1 = spec_move(m, pid, d)->Ok_0;
    assert(p.id == pid);
    assert forall|i: int| 0 <= i < m1.players.len() implies cell_at(
        m1,
        (#[trigger] m1.players[i]).x as int,
        m1.players[i].y as int,
    ) == CellState::Owned(m1.players[i].id) by {
        if i != pid - 1 {
            assert(m.players[i].id == i + 1);
            assert(cell_at(m, m.players[i].x as int, m.players[i].y as int) == CellState::Owned(
                m.players[i].id,
            ));
            if (m.players[i].x as int, m.players[i].y as int) == (pos.0 as int, pos.1 as int) {
                assert(cell_at(m, pos.0 as int, pos.1 as int) == CellState::Owned((i + 1) as u8));
                assert(false);
            }
        }
    }
    assert forall|x: int, y: int| in_bounds(m1, x, y) implies ((#[trigger] cell_at(m1, x, y))
        matches CellState::Owned(q) ==> 1 <= q && q as int <= m1.players.len()) by {
        if (x, y) != (pos.0 as int, pos.1 as int) {
            assert(cell_at(m1, x, y) == cell_at(m, x, y));
        }
    }
}

/// The move transition as seen from the transport layer, where the direction
/// arrives as a token. The token is inspected only after the status and the
/// player id, so a malformed token while the match is not running reports
/// `NotInProgress`, exactly as the in-progress checks order their
/// rejections.
pub open spec fn spec_handle_move(m: StateModel, pid: PlayerId, token: Seq<char>) -> Result<
    StateModel,
    MoveError,
> {
    if m.status != GameStatus::InProgress {
        Err(MoveError::NotInProgress)
    } else if !has_player(m, pid) {
        Err(MoveError::UnknownPlayer)
    } else {
        match direction_of(token) {
            None => Err(MoveError::UnknownDirection),
            Some(d) => spec_move(m, pid, d),
        }
    }
}

} // verus!
