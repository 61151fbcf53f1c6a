//! The tagged wire shape of the grid, as the RPC-style transport carries it:
//! a cell is a tag plus an owner field instead of a tagged union, and the
//! matrix is wrapped row by row. Verified conversions connect this shape to
//! the engine's grid, so a transport can encode and decode without touching
//! game rules.

use vstd::prelude::*;

use crate::state::grid_model;
use crate::types::{CellState, PlayerId};

verus! {

/// The wire tag of one cell.
#[derive(Clone, Copy, PartialEq, Eq, Structural, Debug)]
pub enum CellStateEnum {
    Neutral,
    Owned,
}

/// One cell on the wire: the tag, and an owner field that is meaningful only
/// when the tag says owned.
#[derive(Clone, Copy, PartialEq, Eq, Structural, Debug)]
pub struct Cell {
    pub state: CellStateEnum,
    pub owner_id: i32,
}

/// One grid row on the wire.
#[derive(PartialEq, Eq, Debug)]
pub struct GridRow {
    pub cells: Vec<Cell>,
}

/// The whole grid on the wire, wrapped row by row.
#[derive(PartialEq, Eq, Debug)]
pub struct Grid {
    pub rows: Vec<GridRow>,
}

/// The wire encoding of one engine cell: a neutral cell carries owner 0.
pub open spec fn wire_of_cell(c: CellState) -> Cell {
    match c {
        CellState::Neutral => Cell { state: CellStateEnum::Neutral, owner_id: 0 },
        CellState::Owned(id) => Cell { state: CellStateEnum::Owned, owner_id: id as i32 },
    }
}

/// The engine cell a wire cell decodes to, if its owner field fits a player
/// id.
pub open spec fn cell_of_wire(c: Cell) -> Option<CellState> {
    match c.state {
        CellStateEnum::Neutral => Some(CellState::Neutral),
        CellStateEnum::Owned => if 0 <= c.owner_id <= u8::MAX {
            Some(CellState::Owned(c.owner_id as PlayerId))
        } else {
            None
        },
    }
}

/// Decoding inverts encoding: the wire shape loses nothing of a cell.
pub proof fn lemma_cell_round_trip(c: CellState)
    ensures
        cell_of_wire(wire_of_cell(c)) == Some(c),
{
}

/// Encodes one engine cell for the wire.
pub fn cell_to_wire(c: CellState) -> (r: Cell)
    ensures
        r == wire_of_cell(c),
{
    match c {
        CellState::Neutral => Cell { state: CellStateEnum::Neutral, owner_id: 0 },
        CellState::Owned(id) => Cell { state: CellStateEnum::Owned, owner_id: id as i32 },
    }
}

/// Decodes one wire cell, refusing an owner field that does not fit a player
/// id.
pub fn cell_from_wire(c: Cell) -> (r: Option<CellState>)
    ensures
        r == cell_of_wire(c),
{
    match c.state {
        CellStateEnum::Neutral => Some(CellState::Neutral),
        CellStateEnum::Owned => {
            if 0 <= c.owner_id && c.owner_id <= 255 {
                Some(CellState::Owned(c.owner_id as PlayerId))
            } else {
                None
            }
        },
    }
}

/// Encodes the engine grid in the row-wrapped wire shape, cell for cell.
pub fn grid_to_wire(grid: &Vec<Vec<CellState>>) -> (r: Grid)
    ensures
        r.rows@.len() == grid@.len(),
        forall|y: int|
            0 <= y < grid@.len() ==> (#[trigger] r.rows@[y]).cells@.len() == grid@[y]@.len(),
        forall|y: int, x: int|
            0 <= y < grid@.len() && 0 <= x < grid@[y]@.len() ==> (#[trigger] r.rows@[y].cells@[x])
                == wire_of_cell(grid_model(grid@)[y][x]),
{
    let mut rows: Vec<GridRow> = Vec::new();
    let mut y: usize = 0;
    while y < grid.len()
        invariant
            y <= grid@.len(),
            rows@.len() == y,
            forall|yy: int|
                0 <= yy < y ==> (#[trigger] rows@[yy]).cells@.len() == grid@[yy]@.len(),
            forall|yy: int, x: int|
                0 <= yy < y && 0 <= x < grid@[yy]@.len() ==> (#[trigger] rows@[yy].cells@[x])
                    == wire_of_cell(grid@[yy]@[x]),
        decreases grid@.len() - y,
    {
        let src = &grid[y];
        let mut cells: Vec<Cell> = Vec::new();
        let mut x: usize = 0;
        while x < src.len()
            invariant
                x <= src@.len(),
                cells@.len() == x,
                forall|xx: int|
                    0 <= xx < x ==> (#[trigger] cells@[xx]) == wire_of_cell(src@[xx]),
            decreases src@.len() - x,
        {
            cells.push(cell_to_wire(src[x]));
            x = x + 1;
        }
        rows.push(GridRow { cells });
        y = y + 1;
    }
    Grid { rows }
}

/// Decodes a row-wrapped wire grid back into the engine shape; a single
/// unusable owner field refuses the whole grid.
pub fn grid_from_wire(g: &Grid) -> (r: Option<Vec<Vec<CellState>>>)
    ensures
        match r {
            Some(grid) => {
                &&& grid@.len() == g.rows@.len()
                &&& forall|y: int|
                    0 <= y < grid@.len() ==> (#[trigger] grid@[y])@.len()
                        == g.rows@[y].cells@.len()
                &&& forall|y: int, x: int|
                    0 <= y < grid@.len() && 0 <= x < grid@[y]@.len() ==> cell_of_wire(
                        g.rows@[y].cells@[x],
                    ) == Some(#[trigger] grid@[y]@[x])
            },
            None => exists|y: int, x: int|
                0 <= y < g.rows@.len() && 0 <= x < g.rows@[y].cells@.len() && cell_of_wire(
                    #[trigger] g.rows@[y].cells@[x],
                ) is None,
        },
{
    let mut grid: Vec<Vec<CellState>> = Vec::new();
    let mut y: usize = 0;
    while y < g.rows.len()
        invariant
            y <= g.rows@.len(),
            grid@.len() == y,
            forall|yy: int|
                0 <= yy < y ==> (#[trigger] grid@[yy])@.len() == g.rows@[yy].cells@.len(),
            forall|yy: int, x: int|
                0 <= yy < y && 0 <= x < grid@[yy]@.len() ==> cell_of_wire(g.rows@[yy].cells@[x])
                    == Some(#[trigger] grid@[yy]@[x]),
        decreases g.rows@.len() - y,
    {
        let src = &g.rows[y];
        let mut row: Vec<CellState> = Vec::new();
        let mut x: usize = 0;
        while x < src.cells.len()
            invariant
                y < g.rows@.len(),
                src == &g.rows@[y as int],
                x <= src.cells@.len(),
                row@.len() == x,
                forall|xx: int|
                    0 <= xx < x ==> cell_of_wire(src.cells@[xx]) == Some(
                        #[trigger] row@[xx],
                    ),
            decreases src.cells@.len() - x,
        {
            match cell_from_wire(src.cells[x]) {
                Some(c) => row.push(c),
                None => {
                    return None;
                },
            }
            x = x + 1;
        }
        grid.push(row);
        y = y + 1;
    }
    Some(grid)
}

} // verus!
