//! The state owner: the single authoritative holder of the live game state.
//!
//! All mutations go through `&mut self`, so within one process every
//! operation is an atomic read-modify-write and no caller can observe a
//! partially updated state. For the split deployment the owner offers two
//! safe protocols instead of blind whole-state overwrites: command
//! forwarding (`apply_command`), where the owner itself validates and
//! applies the move, and versioned replacement (`replace_if_current`), where
//! a whole-state write must carry the revision it was computed from and is
//! refused once the stored revision has advanced. Every mutation advances
//! the revision, so two concurrent read-modify-write cycles can never both
//! land: the loser gets `OptimisticConflict` and must re-fetch and retry.

use vstd::prelude::*;

use crate::engine;
use crate::model::{
    dims_ok, initial_model, spec_handle_move, spec_join, wf, PlayerModel, StateModel,
};
use crate::state::{create_initial_state, player_model, GameState};
use crate::types::{ConfigError, JoinError, MoveError, MovePayload, Player, ReplaceError};

verus! {

/// The revision that follows `r`: a monotonically increasing counter that,
/// on the unreachable extreme of the machine word, wraps rather than stalls,
/// so successive revisions are always distinct.
pub open spec fn next_rev(r: u64) -> u64 {
    if r < u64::MAX {
        (r + 1) as u64
    } else {
        0
    }
}

/// The single authoritative holder of one live `GameState`, paired with the
/// revision counter of the versioned replacement protocol.
pub struct StateOwner {
    state: GameState,
    revision: u64,
}

impl StateOwner {
    /// The mathematical value of the held state.
    pub closed spec fn model(&self) -> StateModel {
        self.state@
    }

    /// The current revision.
    pub closed spec fn revision_val(&self) -> u64 {
        self.revision
    }

    /// The owner's invariant: the held state is well-formed.
    pub open spec fn inv(&self) -> bool {
        wf(self.model())
    }

    /// Creates the owner around a freshly initialized state, rejecting
    /// configurations on which the four starting coordinates cannot be
    /// placed.
    pub fn new(width: usize, height: usize) -> (r: Result<StateOwner, ConfigError>)
        ensures
            match r {
                Ok(o) => {
                    &&& dims_ok(width as nat, height as nat)
                    &&& o.inv()
                    &&& o.model() == initial_model(width as nat, height as nat)
                    &&& o.revision_val() == 0
                },
                Err(e) => e == ConfigError::InvalidDimensions && !dims_ok(
                    width as nat,
                    height as nat,
                ),
            },
    {
        match create_initial_state(width, height) {
            Ok(state) => Ok(StateOwner { state, revision: 0 }),
            Err(e) => Err(e),
        }
    }

    /// The current revision, for callers of the replacement protocol.
    pub fn revision(&self) -> (r: u64)
        ensures
            r == self.revision_val(),
    {
        self.revision
    }

    /// A read-only snapshot of the state together with the revision that
    /// produced it. Safe to call at arbitrary frequency: it never mutates.
    pub fn query_state(&self) -> (r: (GameState, u64))
        requires
            self.inv(),
        ensures
            r.0@ == self.model(),
            r.1 == self.revision_val(),
            wf(r.0@),
    {
        (self.state.snapshot(), self.revision)
    }

    /// Join under the owner's serialization. A successful mutation advances
    /// the revision; a rejection changes nothing.
    pub fn join(&mut self) -> (r: Result<Player, JoinError>)
        requires
            old(self).inv(),
        ensures
            final(self).inv(),
            match r {
                Ok(p) => spec_join(old(self).model()) == Ok::<
                    (StateModel, PlayerModel),
                    JoinError,
                >((final(self).model(), player_model(p))) && final(self).revision_val()
                    == next_rev(old(self).revision_val()),
                Err(e) => spec_join(old(self).model()) == Err::<
                    (StateModel, PlayerModel),
                    JoinError,
                >(e) && final(self).model() == old(self).model() && final(self).revision_val()
                    == old(self).revision_val(),
            },
    {
        let r = engine::join(&mut self.state);
        if r.is_ok() {
            self.advance_revision();
        }
        r
    }

    /// The command path of the split deployment: the transport forwards the
    /// move command and the owner itself validates and applies it, under its
    /// own serialization, then returns the updated state. A rejection
    /// changes nothing.
    pub fn apply_command(&mut self, cmd: &MovePayload) -> (r: Result<GameState, MoveError>)
        requires
            old(self).inv(),
        ensures
            final(self).inv(),
            match r {
                Ok(s) => spec_handle_move(old(self).model(), cmd.player_id, cmd.direction@)
                    == Ok::<StateModel, MoveError>(final(self).model()) && s@
                    == final(self).model() && final(self).revision_val() == next_rev(
                    old(self).revision_val(),
                ),
                Err(e) => spec_handle_move(old(self).model(), cmd.player_id, cmd.direction@)
                    == Err::<StateModel, MoveError>(e) && final(self).model() == old(self).model()
                    && final(self).revision_val() == old(self).revision_val(),
            },
    {
        match engine::handle_move(&mut self.state, cmd.player_id, cmd.direction.as_str()) {
            Ok(()) => {
                self.advance_revision();
                Ok(self.state.snapshot())
            },
            Err(e) => Err(e),
        }
    }

    /// The versioned replacement path, for callers that must write a whole
    /// state back: the write lands only if `read_revision` is still the
    /// stored revision, otherwise the caller lost the race and must re-fetch
    /// and retry. The caller hands in a well-formed state (`is_well_formed`
    /// decides that at runtime for untrusted input).
    pub fn replace_if_current(&mut self, new_state: GameState, read_revision: u64) -> (r: Result<
        (),
        ReplaceError,
    >)
        requires
            old(self).inv(),
            wf(new_state@),
        ensures
            final(self).inv(),
            if read_revision == old(self).revision_val() {
                &&& r is Ok
                &&& final(self).model() == new_state@
                &&& final(self).revision_val() == next_rev(old(self).revision_val())
            } else {
                &&& r == Err::<(), ReplaceError>(ReplaceError::OptimisticConflict)
                &&& final(self).model() == old(self).model()
                &&& final(self).revision_val() == old(self).revision_val()
            },
    {
        if read_revision != self.revision {
            return Err(ReplaceError::OptimisticConflict);
        }
        self.state = new_state;
        self.advance_revision();
        Ok(())
    }

    /// Administrative reset: replaces the live state with a freshly
    /// initialized one of the same configured dimensions and advances the
    /// revision.
    pub fn restart(&mut self)
        requires
            old(self).inv(),
        ensures
            final(self).inv(),
            final(self).model() == initial_model(old(self).model().width, old(self).model().height),
            final(self).revision_val() == next_rev(old(self).revision_val()),
    {
        let width = self.state.width;
        let height = self.state.height;
        if let Ok(fresh) = create_initial_state(width, height) {
            self.state = fresh;
        } else {
            proof {
                assert(false);
            }
        }
        self.advance_revision();
    }

    /// Advances the revision counter.
    fn advance_revision(&mut self)
        ensures
            final(self).revision == next_rev(old(self).revision),
            final(self).state == old(self).state,
    {
        self.revision = if self.revision < u64::MAX {
            self.revision + 1
        } else {
            0
        };
    }
}

} // verus!
