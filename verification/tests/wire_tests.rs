use game_kernel::engine::{join, move_player};
use game_kernel::state::create_initial_state;
use game_kernel::types::{CellState, Direction};
use game_kernel::wire::{
    cell_from_wire, cell_to_wire, grid_from_wire, grid_to_wire, Cell, CellStateEnum,
};

#[test]
fn cell_encoding_round_trips() {
    let neutral = cell_to_wire(CellState::Neutral);
    assert_eq!(neutral.state, CellStateEnum::Neutral);
    assert_eq!(neutral.owner_id, 0);
    assert_eq!(cell_from_wire(neutral), Some(CellState::Neutral));

    let owned = cell_to_wire(CellState::Owned(3));
    assert_eq!(owned.state, CellStateEnum::Owned);
    assert_eq!(owned.owner_id, 3);
    assert_eq!(cell_from_wire(owned), Some(CellState::Owned(3)));
}

#[test]
fn unusable_owner_fields_are_refused() {
    assert_eq!(
        cell_from_wire(Cell { state: CellStateEnum::Owned, owner_id: -1 }),
        None
    );
    assert_eq!(
        cell_from_wire(Cell { state: CellStateEnum::Owned, owner_id: 256 }),
        None
    );
    // The owner field of a neutral cell carries no meaning.
    assert_eq!(
        cell_from_wire(Cell { state: CellStateEnum::Neutral, owner_id: 999 }),
        Some(CellState::Neutral)
    );
}

#[test]
fn grid_encoding_round_trips() {
    let mut s = create_initial_state(3, 2).unwrap();
    join(&mut s).unwrap();
    join(&mut s).unwrap();
    move_player(&mut s, 1, Direction::Left).unwrap();

    let wire = grid_to_wire(&s.grid);
    assert_eq!(wire.rows.len(), 2);
    assert_eq!(wire.rows[0].cells.len(), 3);
    assert_eq!(wire.rows[0].cells[0].state, CellStateEnum::Owned);
    assert_eq!(wire.rows[0].cells[0].owner_id, 1);
    assert_eq!(wire.rows[1].cells[0].state, CellStateEnum::Neutral);

    let back = grid_from_wire(&wire).unwrap();
    assert_eq!(back, s.grid);
}

#[test]
fn corrupt_wire_grid_is_refused_whole() {
    let s = create_initial_state(3, 2).unwrap();
    let mut wire = grid_to_wire(&s.grid);
    wire.rows[1].cells[2] = Cell { state: CellStateEnum::Owned, owner_id: -5 };
    assert_eq!(grid_from_wire(&wire), None);
}
