//! The concrete game state: the grid matrix, the player list, and the
//! derived queries. Every operation is specified against the mathematical
//! model in `model`.

use vstd::prelude::*;

use crate::model::{
    cell_at, color_of, count_owned_by_model, dims_ok, grid_count_upto, grid_has_neutral,
    has_neutral, has_player, in_bounds, initial_model, lemma_cell_slot_bound, player_of,
    row_count_upto, start_pos, wf, PlayerModel, StateModel,
};
use crate::types::{CellState, ConfigError, GameStatus, Player, PlayerId};
use vstd::pervasive::VecAdditionalExecFns;

verus! {

/// The authoritative state of one match. `grid` is a `height` by `width`
/// matrix stored as rows; `players` holds the joined players in id order
/// (player `id` sits at index `id - 1`, since ids are assigned sequentially
/// from 1 and never removed).
pub struct GameState {
    pub status: GameStatus,
    pub width: usize,
    pub height: usize,
    pub grid: Vec<Vec<CellState>>,
    pub players: Vec<Player>,
}

/// The mathematical value of one concrete player.
pub open spec fn player_model(p: Player) -> PlayerModel {
    PlayerModel { id: p.id, x: p.x as nat, y: p.y as nat, color: p.color@ }
}

/// The mathematical value of a row-major grid.
pub open spec fn grid_model(grid: Seq<Vec<CellState>>) -> Seq<Seq<CellState>> {
    Seq::new(grid.len(), |y: int| grid[y]@)
}

impl View for GameState {
    type V = StateModel;

    open spec fn view(&self) -> StateModel {
        StateModel {
            status: self.status,
            width: self.width as nat,
            height: self.height as nat,
            grid: grid_model(self.grid@),
            players: Seq::new(self.players@.len(), |i: int| player_model(self.players@[i])),
        }
    }
}

/// The fixed starting coordinate for player `id`, as a pair `(x, y)`.
pub(crate) fn start_position(id: PlayerId, width: usize, height: usize) -> (r: (usize, usize))
    requires
        1 <= id <= 4,
        width >= 2,
        height >= 2,
    ensures
        r.0 as nat == start_pos(id as int, width as nat, height as nat).0,
        r.1 as nat == start_pos(id as int, width as nat, height as nat).1,
        r.0 < width,
        r.1 < height,
{
    if id == 1 {
        (width / 2, 0)
    } else if id == 2 {
        (width / 2, height - 1)
    } else if id == 3 {
        (0, height / 2)
    } else {
        (width - 1, height / 2)
    }
}

/// The display color paired with player `id`.
pub(crate) fn player_color(id: PlayerId) -> (r: String)
    requires
        1 <= id <= 4,
    ensures
        r@ == color_of(id as int),
{
    if id == 1 {
        "#FF5733".to_owned()
    } else if id == 2 {
        "#33C4FF".to_owned()
    } else if id == 3 {
        "#A2FF33".to_owned()
    } else {
        "#F733FF".to_owned()
    }
}

/// Decides whether a grid configuration is accepted: the four starting
/// coordinates must be pairwise distinct and in bounds, and the cell count
/// must fit the machine.
pub fn dims_are_ok(width: usize, height: usize) -> (r: bool)
    ensures
        r == dims_ok(width as nat, height as nat),
{
    if width < 2 || height < 2 {
        return false;
    }
    if width.checked_mul(height).is_none() {
        return false;
    }
    let mut distinct = true;
    let mut i: u8 = 1;
    while i <= 4
        invariant
            1 <= i <= 5,
            width >= 2,
            height >= 2,
            distinct <==> forall|a: int, b: int|
                1 <= a < b <= 4 && b < i ==> start_pos(a, width as nat, height as nat) != start_pos(
                    b,
                    width as nat,
                    height as nat,
                ),
        decreases 5 - i,
    {
        let pi = start_position(i, width, height);
        let mut j: u8 = 1;
        while j < i
            invariant
                1 <= j <= i <= 4,
                width >= 2,
                height >= 2,
                pi.0 as nat == start_pos(i as int, width as nat, height as nat).0,
                pi.1 as nat == start_pos(i as int, width as nat, height as nat).1,
                distinct <==> (forall|a: int, b: int|
                    1 <= a < b <= 4 && b < i ==> start_pos(a, width as nat, height as nat)
                        != start_pos(b, width as nat, height as nat)) && (forall|a: int|
                    1 <= a < j ==> start_pos(a, width as nat, height as nat) != start_pos(
                        i as int,
                        width as nat,
                        height as nat,
                    )),
            decreases i - j,
        {
            let pj = start_position(j, width, height);
            if pi.0 == pj.0 && pi.1 == pj.1 {
                distinct = false;
            }
            j = j + 1;
        }
        i = i + 1;
    }
    distinct
}

/// Builds the freshly initialized state for the configured dimensions: all
/// cells neutral, no players, waiting for players. A configuration on which
/// the four distinct starting coordinates cannot be placed (or whose cell
/// count does not fit the machine) is rejected here, at construction, so no
/// runtime operation ever meets it.
pub fn create_initial_state(width: usize, height: usize) -> (r: Result<GameState, ConfigError>)
    ensures
        match r {
            Ok(s) => {
                &&& dims_ok(width as nat, height as nat)
                &&& s@ == initial_model(width as nat, height as nat)
                &&& wf(s@)
            },
            Err(e) => e == ConfigError::InvalidDimensions && !dims_ok(width as nat, height as nat),
        },
{
    if !dims_are_ok(width, height) {
        return Err(ConfigError::InvalidDimensions);
    }
    let mut grid: Vec<Vec<CellState>> = Vec::new();
    let mut y: usize = 0;
    while y < height
        invariant
            y <= height,
            grid@.len() == y,
            forall|yy: int| 0 <= yy < y ==> (#[trigger] grid@[yy])@.len() == width,
            forall|yy: int, xx: int|
                0 <= yy < y && 0 <= xx < width ==> (#[trigger] grid@[yy]@[xx]) == CellState::Neutral,
        decreases height - y,
    {
        let row: Vec<CellState> = vec![CellState::Neutral; width];
        grid.push(row);
        y = y + 1;
    }
    let s = GameState {
        status: GameStatus::WaitingForPlayers,
        width,
        height,
        grid,
        players: Vec::new(),
    };
    proof {
        assert(s@.grid =~~= initial_model(width as nat, height as nat).grid);
        assert(s@ =~~= initial_model(width as nat, height as nat));
        assert(!has_neutral(s@) ==> false) by {
            assert(cell_at(s@, 0, 0) == CellState::Neutral);
            assert(s@.grid[0][0] == CellState::Neutral);
        }
    }
    Ok(s)
}

impl GameState {
    /// The cell at column `x`, row `y`, or `None` outside the grid.
    pub fn get_cell(&self, x: usize, y: usize) -> (r: Option<CellState>)
        requires
            wf(self@),
        ensures
            r == if in_bounds(self@, x as int, y as int) {
                Some(cell_at(self@, x as int, y as int))
            } else {
                None::<CellState>
            },
    {
        if x < self.width && y < self.height {
            Some(self.grid[y][x])
        } else {
            None
        }
    }

    /// Whether any cell is still unclaimed. The match is finished exactly
    /// when this returns false.
    pub fn has_neutral_cell(&self) -> (r: bool)
        requires
            wf(self@),
        ensures
            r == has_neutral(self@),
    {
        proof {
            assert forall|y: int| 0 <= y < self.height implies (#[trigger] self.grid@[y])@.len()
                == self.width by {
                assert(self@.grid[y].len() == self@.width);
            }
        }
        scan_has_neutral(&self.grid, self.width, self.height)
    }

    /// How many cells player `id` owns: the player's score.
    pub fn count_owned_by(&self, id: PlayerId) -> (r: usize)
        requires
            wf(self@),
        ensures
            r as nat == count_owned_by_model(self@, id),
    {
        let mut count: usize = 0;
        let mut y: usize = 0;
        while y < self.height
            invariant
                wf(self@),
                self.height == self@.height,
                self.width == self@.width,
                y <= self@.height,
                count as nat == grid_count_upto(self@.grid, id, y as int),
                count as nat <= (y as nat) * self@.width,
            decreases self@.height - y,
        {
            let mut x: usize = 0;
            while x < self.width
                invariant
                    wf(self@),
                    self.height == self@.height,
                    self.width == self@.width,
                    y < self@.height,
                    x <= self@.width,
                    count as nat == grid_count_upto(self@.grid, id, y as int) + row_count_upto(
                        self@.grid[y as int],
                        id,
                        x as int,
                    ),
                    count as nat <= (y as nat) * self@.width + x as nat,
                decreases self@.width - x,
            {
                if self.grid[y][x] == CellState::Owned(id) {
                    proof {
                        lemma_cell_slot_bound(
                            x as int,
                            y as int,
                            self@.width as int,
                            self@.height as int,
                        );
                    }
                    count = count + 1;
                }
                x = x + 1;
            }
            proof {
                assert((y as nat + 1) * self@.width == (y as nat) * self@.width + self@.width)
                    by (nonlinear_arith);
            }
            y = y + 1;
        }
        count
    }

    /// Decides the well-formedness invariant at runtime, so that an
    /// untrusted state arriving from outside (for example over the versioned
    /// whole-state replacement path) can be validated before it becomes
    /// authoritative.
    pub fn is_well_formed(&self) -> (r: bool)
        ensures
            r == wf(self@),
    {
        if !dims_are_ok(self.width, self.height) {
            return false;
        }
        if self.grid.len() != self.height {
            return false;
        }
        let mut y: usize = 0;
        while y < self.height
            invariant
                self.grid@.len() == self@.height,
                self.height == self@.height,
                self.width == self@.width,
                y <= self@.height,
                forall|yy: int| 0 <= yy < y ==> (#[trigger] self@.grid[yy]).len() == self@.width,
            decreases self@.height - y,
        {
            if self.grid[y].len() != self.width {
                assert(self@.grid[y as int].len() != self@.width);
                return false;
            }
            y = y + 1;
        }
        if self.players.len() > 4 {
            return false;
        }
        let mut i: usize = 0;
        while i < self.players.len()
            invariant
                self.grid@.len() == self@.height,
                self.height == self@.height,
                self.width == self@.width,
                i <= self@.players.len(),
                self.players@.len() == self@.players.len(),
                self@.players.len() <= 4,
                forall|yy: int|
                    0 <= yy < self@.height ==> (#[trigger] self@.grid[yy]).len() == self@.width,
                forall|j: int| 0 <= j < i ==> (#[trigger] self@.players[j]).id == j + 1,
                forall|j: int|
                    0 <= j < i ==> (#[trigger] self@.players[j]).x < self@.width
                        && self@.players[j].y < self@.height,
                forall|j: int|
                    0 <= j < i ==> cell_at(
                        self@,
                        (#[trigger] self@.players[j]).x as int,
                        self@.players[j].y as int,
                    ) == CellState::Owned(self@.players[j].id),
            decreases self@.players.len() - i,
        {
            let p = &self.players[i];
            proof {
                assert(self@.players[i as int] == player_model(self.players@[i as int]));
            }
            if (p.id as usize) != i + 1 {
                assert(self@.players[i as int].id != i + 1);
                return false;
            }
            if !(p.x < self.width && p.y < self.height) {
                assert(!(self@.players[i as int].x < self@.width && self@.players[i as int].y
                    < self@.height));
                return false;
            }
            proof {
                assert(self.grid@[p.y as int]@.len() == self@.width);
            }
            if self.grid[p.y][p.x] != CellState::Owned(p.id) {
                assert(cell_at(self@, p.x as int, p.y as int) != CellState::Owned(
                    self@.players[i as int].id,
                ));
                return false;
            }
            i = i + 1;
        }
        let mut y: usize = 0;
        while y < self.height
            invariant
                self.grid@.len() == self@.height,
                self.height == self@.height,
                self.width == self@.width,
                self.players@.len() == self@.players.len(),
                y <= self@.height,
                forall|yy: int|
                    0 <= yy < self@.height ==> (#[trigger] self@.grid[yy]).len() == self@.width,
                forall|xx: int, yy: int|
                    0 <= xx < self@.width && 0 <= yy < y ==> ((#[trigger] cell_at(self@, xx, yy))
                        matches CellState::Owned(q) ==> 1 <= q && q as int
                        <= self@.players.len()),
            decreases self@.height - y,
        {
            let mut x: usize = 0;
            while x < self.width
                invariant
                    self.grid@.len() == self@.height,
                    self.height == self@.height,
                    self.width == self@.width,
                    self.players@.len() == self@.players.len(),
                    y < self@.height,
                    x <= self@.width,
                    forall|yy: int|
                        0 <= yy < self@.height ==> (#[trigger] self@.grid[yy]).len()
                            == self@.width,
                    forall|xx: int, yy: int|
                        0 <= xx < self@.width && 0 <= yy < y ==> ((#[trigger] cell_at(
                            self@,
                            xx,
                            yy,
                        )) matches CellState::Owned(q) ==> 1 <= q && q as int
                            <= self@.players.len()),
                    forall|xx: int|
                        0 <= xx < x ==> ((#[trigger] cell_at(self@, xx, y as int))
                            matches CellState::Owned(q) ==> 1 <= q && q as int
                            <= self@.players.len()),
                decreases self@.width - x,
            {
                match self.grid[y][x] {
                    CellState::Neutral => {},
                    CellState::Owned(q) => {
                        if q < 1 || (q as usize) > self.players.len() {
                            assert((cell_at(self@, x as int, y as int)
                                matches CellState::Owned(qq) && !(1 <= qq && qq as int
                                <= self@.players.len())));
                            return false;
                        }
                    },
                }
                x = x + 1;
            }
            y = y + 1;
        }
        match self.status {
            GameStatus::WaitingForPlayers => {
                if self.players.len() > 1 {
                    return false;
                }
                let mut i: usize = 0;
                while i < self.players.len()
                    invariant
                        self.height == self@.height,
                        self.width == self@.width,
                        self.players@.len() == self@.players.len(),
                        self@.players.len() <= 1,
                        dims_ok(self@.width, self@.height),
                        i <= self@.players.len(),
                        forall|j: int|
                            0 <= j < i ==> ((#[trigger] self@.players[j]).x as int,
                            self@.players[j].y as int) == (
                                start_pos(j + 1, self@.width, self@.height).0 as int,
                                start_pos(j + 1, self@.width, self@.height).1 as int,
                            ),
                    decreases self@.players.len() - i,
                {
                    let p = &self.players[i];
                    let (sx, sy) = start_position((i + 1) as PlayerId, self.width, self.height);
                    proof {
                        assert(self@.players[i as int] == player_model(self.players@[i as int]));
                    }
                    if p.x != sx || p.y != sy {
                        assert((self@.players[i as int].x as int, self@.players[i as int].y as int)
                            != (
                            start_pos(i as int + 1, self@.width, self@.height).0 as int,
                            start_pos(i as int + 1, self@.width, self@.height).1 as int,
                        ));
                        return false;
                    }
                    i = i + 1;
                }
                proof {
                    assert(self.grid@[0]@.len() == self@.width);
                }
                if !matches!(self.grid[0][0], CellState::Neutral) {
                    assert(cell_at(self@, 0, 0) != CellState::Neutral);
                    return false;
                }
            },
            GameStatus::InProgress => {
                if self.players.len() < 2 {
                    return false;
                }
            },
            GameStatus::Finished => {
                if self.players.len() < 2 {
                    return false;
                }
            },
        }
        proof {
            assert forall|yy: int| 0 <= yy < self.height implies (#[trigger] self.grid@[yy])@.len()
                == self.width by {
                assert(self@.grid[yy].len() == self@.width);
            }
        }
        let open_cells = scan_has_neutral(&self.grid, self.width, self.height);
        let finished = matches!(self.status, GameStatus::Finished);
        if finished != !open_cells {
            return false;
        }
        proof {
            assert(wf(self@));
        }
        true
    }

    /// A deep copy of the state, for read-only presentation snapshots.
    pub fn snapshot(&self) -> (r: GameState)
        ensures
            r@ == self@,
    {
        let mut grid: Vec<Vec<CellState>> = Vec::new();
        let mut y: usize = 0;
        while y < self.grid.len()
            invariant
                y <= self.grid@.len(),
                grid@.len() == y,
                forall|i: int| 0 <= i < y ==> (#[trigger] grid@[i])@ == self.grid@[i]@,
            decreases self.grid@.len() - y,
        {
            let row = copy_row(&self.grid[y]);
            grid.push(row);
            y = y + 1;
        }
        let mut players: Vec<Player> = Vec::new();
        let mut i: usize = 0;
        while i < self.players.len()
            invariant
                i <= self.players@.len(),
                players@.len() == i,
                forall|j: int|
                    0 <= j < i ==> player_model(#[trigger] players@[j]) == player_model(
                        self.players@[j],
                    ),
            decreases self.players@.len() - i,
        {
            let p = &self.players[i];
            let q = Player { id: p.id, x: p.x, y: p.y, color: p.color.clone() };
            players.push(q);
            i = i + 1;
        }
        let r = GameState {
            status: self.status,
            width: self.width,
            height: self.height,
            grid,
            players,
        };
        proof {
            assert(r@ =~~= self@);
        }
        r
    }

    /// The player with id `id`, or `None` if no such player joined.
    pub fn get_player(&self, id: PlayerId) -> (r: Option<&Player>)
        requires
            wf(self@),
        ensures
            match r {
                Some(p) => has_player(self@, id) && player_model(*p) == player_of(self@, id),
                None => !has_player(self@, id),
            },
    {
        if 1 <= id && (id as usize) <= self.players.len() {
            Some(&self.players[(id - 1) as usize])
        } else {
            None
        }
    }
}

/// An element-for-element copy of one grid row.
pub(crate) fn copy_row(row: &Vec<CellState>) -> (r: Vec<CellState>)
    ensures
        r@ == row@,
{
    let mut r: Vec<CellState> = Vec::new();
    let mut x: usize = 0;
    while x < row.len()
        invariant
            x <= row@.len(),
            r@.len() == x,
            forall|i: int| 0 <= i < x ==> #[trigger] r@[i] == row@[i],
        decreases row@.len() - x,
    {
        r.push(row[x]);
        x = x + 1;
    }
    proof {
        assert(r@ =~= row@);
    }
    r
}

/// Overwrites the cell at column `x`, row `y` of a grid matrix.
pub(crate) fn set_cell(grid: &mut Vec<Vec<CellState>>, x: usize, y: usize, c: CellState)
    requires
        y < old(grid)@.len(),
        x < old(grid)@[y as int]@.len(),
    ensures
        grid_model(final(grid)@) == grid_model(old(grid)@).update(
            y as int,
            grid_model(old(grid)@)[y as int].update(x as int, c),
        ),
{
    let mut row = copy_row(&grid[y]);
    row.set(x, c);
    grid.set(y, row);
    proof {
        assert(grid_model(grid@) =~~= grid_model(old(grid)@).update(
            y as int,
            grid_model(old(grid)@)[y as int].update(x as int, c),
        ));
    }
}

/// Scans a grid matrix for an unclaimed cell.
pub(crate) fn scan_has_neutral(grid: &Vec<Vec<CellState>>, width: usize, height: usize) -> (r:
    bool)
    requires
        grid@.len() == height,
        forall|y: int| 0 <= y < height ==> (#[trigger] grid@[y])@.len() == width,
    ensures
        r == grid_has_neutral(grid_model(grid@), width as nat, height as nat),
{
    let mut y: usize = 0;
    while y < height
        invariant
            y <= height,
            grid@.len() == height,
            forall|yy: int| 0 <= yy < height ==> (#[trigger] grid@[yy])@.len() == width,
            forall|xx: int, yy: int|
                0 <= xx < width && 0 <= yy < y ==> (#[trigger] grid@[yy]@[xx])
                    != CellState::Neutral,
        decreases height - y,
    {
        let mut x: usize = 0;
        while x < width
            invariant
                y < height,
                x <= width,
                grid@.len() == height,
                forall|yy: int| 0 <= yy < height ==> (#[trigger] grid@[yy])@.len() == width,
                forall|xx: int, yy: int|
                    0 <= xx < width && 0 <= yy < y ==> (#[trigger] grid@[yy]@[xx])
                        != CellState::Neutral,
                forall|xx: int|
                    0 <= xx < x ==> (#[trigger] grid@[y as int]@[xx]) != CellState::Neutral,
            decreases width - x,
        {
            if grid[y][x] == CellState::Neutral {
                proof {
                    assert(grid_model(grid@)[y as int][x as int] == CellState::Neutral);
                }
                return true;
            }
            x = x + 1;
        }
        y = y + 1;
    }
    proof {
        assert(forall|xx: int, yy: int|
            0 <= xx < width && 0 <= yy < height ==> (#[trigger] grid_model(grid@)[yy][xx])
                != CellState::Neutral);
    }
    false
}

} // verus!
