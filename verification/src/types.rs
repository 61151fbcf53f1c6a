//! Plain data carried across the engine boundary: statuses, cells, players,
//! directions, and the error taxonomy.

use vstd::prelude::*;

verus! {

/// Identifier of a player within one match. Ids are assigned sequentially at
/// join time starting at 1 and are never reused.
pub type PlayerId = u8;

/// Lifecycle phase of a match. Transitions only ever move forward:
/// `WaitingForPlayers` to `InProgress` to `Finished`.
#[derive(Clone, Copy, PartialEq, Eq, Structural, Debug)]
pub enum GameStatus {
    WaitingForPlayers,
    InProgress,
    Finished,
}

/// One grid cell: unclaimed, or claimed by the player with the given id.
/// Claims are never reverted.
#[derive(Clone, Copy, PartialEq, Eq, Structural, Debug)]
pub enum CellState {
    Neutral,
    Owned(PlayerId),
}

/// The four recognized movement directions. Anything else a transport hands
/// in is rejected as `MoveError::UnknownDirection` at the token layer.
#[derive(Clone, Copy, PartialEq, Eq, Structural, Debug)]
pub enum Direction {
    Up,
    Down,
    Left,
    Right,
}

/// A player: id, current position (always inside the grid), and a display
/// color with no effect on gameplay.
#[derive(PartialEq, Eq, Debug)]
pub struct Player {
    pub id: PlayerId,
    pub x: usize,
    pub y: usize,
    pub color: String,
}

/// A move command as carried by the transport layer: who moves, and the
/// direction token (`"UP"`, `"DOWN"`, `"LEFT"` or `"RIGHT"`).
#[derive(Debug)]
pub struct MovePayload {
    pub player_id: PlayerId,
    pub direction: String,
}

/// A join request was refused: the match has already started or finished, or
/// the player cap of four is reached.
#[derive(Clone, Copy, PartialEq, Eq, Structural, Debug)]
pub enum JoinError {
    Rejected,
}

/// Why a move was refused. Every kind is terminal for that single operation
/// only and leaves the authoritative state untouched.
#[derive(Clone, Copy, PartialEq, Eq, Structural, Debug)]
pub enum MoveError {
    /// The match is still waiting for players, or already finished.
    NotInProgress,
    /// The command names a player id not present in the match.
    UnknownPlayer,
    /// The direction token is not one of the four recognized values.
    UnknownDirection,
    /// The destination cell is owned by a different player.
    Blocked,
}

/// A grid configuration was refused at construction: the four fixed starting
/// coordinates cannot be placed distinct and in bounds, or the cell count
/// does not fit the machine.
#[derive(Clone, Copy, PartialEq, Eq, Structural, Debug)]
pub enum ConfigError {
    InvalidDimensions,
}

/// A versioned whole-state replacement was refused because the stored
/// revision advanced since the caller read it. The caller must re-fetch and
/// retry; the authoritative state is untouched.
#[derive(Clone, Copy, PartialEq, Eq, Structural, Debug)]
pub enum ReplaceError {
    OptimisticConflict,
}

} // verus!
