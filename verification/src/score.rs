//! Scoring and win determination: per-player territory counts, the
//! scoreboard ranking, and the unique-winner check used for the end-of-match
//! broadcast.

use vstd::prelude::*;

use crate::model::{count_owned_by_model, has_player, wf};
use crate::state::GameState;
use crate::types::PlayerId;
use vstd::pervasive::VecAdditionalExecFns;

verus! {

/// Player `id` holds strictly more cells than every rival: the unique winner
/// under the no-tiebreak reading.
pub open spec fn is_strict_winner(m: crate::model::StateModel, id: PlayerId) -> bool {
    has_player(m, id) && forall|j: PlayerId|
        has_player(m, j) && j != id ==> #[trigger] count_owned_by_model(m, j)
            < count_owned_by_model(m, id)
}

/// The winner of the match: the player owning strictly more cells than every
/// rival. Returns `None` when no player joined or the maximum is tied — this
/// engine reports "no unique winner" on an exact tie rather than applying a
/// tiebreak; the scoreboard of `ranked_scores` orders tied players by
/// ascending id, but only for presentation.
pub fn calculate_winner(state: &GameState) -> (r: Option<PlayerId>)
    requires
        wf(state@),
    ensures
        match r {
            Some(id) => is_strict_winner(state@, id),
            None => forall|id: PlayerId| !is_strict_winner(state@, id),
        },
{
    let n = state.players.len();
    if n == 0 {
        return None;
    }
    let mut best_id: PlayerId = 1;
    let mut best = state.count_owned_by(1);
    let mut tie = false;
    let mut id: usize = 2;
    while id <= n
        invariant
            wf(state@),
            n == state@.players.len(),
            1 <= n <= 4,
            2 <= id <= n + 1,
            1 <= best_id < id,
            best as nat == count_owned_by_model(state@, best_id),
            forall|j: PlayerId|
                1 <= j < id ==> #[trigger] count_owned_by_model(state@, j) <= best as nat,
            tie <==> exists|j: PlayerId|
                1 <= j < id && j != best_id && #[trigger] count_owned_by_model(state@, j)
                    == best as nat,
        decreases n + 1 - id,
    {
        let c = state.count_owned_by(id as PlayerId);
        if c > best {
            best = c;
            best_id = id as PlayerId;
            tie = false;
        } else if c == best {
            tie = true;
            proof {
                let w = id as PlayerId;
                assert(1 <= w && w < id + 1 && w != best_id && count_owned_by_model(state@, w)
                    == best as nat);
            }
        }
        id = id + 1;
    }
    if tie {
        proof {
            let j0 = choose|j: PlayerId|
                1 <= j < id && j != best_id && #[trigger] count_owned_by_model(state@, j)
                    == best as nat;
            assert forall|cand: PlayerId| !is_strict_winner(state@, cand) by {
                if has_player(state@, cand) {
                    if cand == best_id {
                        assert(has_player(state@, j0));
                        assert(!(count_owned_by_model(state@, j0) < count_owned_by_model(
                            state@,
                            cand,
                        )));
                    } else {
                        assert(has_player(state@, best_id));
                        assert(!(count_owned_by_model(state@, best_id) < count_owned_by_model(
                            state@,
                            cand,
                        )));
                    }
                }
            }
        }
        None
    } else {
        proof {
            assert forall|j: PlayerId| has_player(state@, j) && j != best_id implies #[trigger]
                count_owned_by_model(state@, j) < count_owned_by_model(state@, best_id) by {
                assert(count_owned_by_model(state@, j) <= best as nat);
            }
        }
        Some(best_id)
    }
}

/// The scoreboard: every player's id and score, ordered by descending score
/// with ties broken by ascending id — the canonical presentation ranking.
#[verifier::rlimit(60)]
pub fn ranked_scores(state: &GameState) -> (r: Vec<(PlayerId, usize)>)
    requires
        wf(state@),
    ensures
        r@.len() == state@.players.len(),
        forall|k: int|
            0 <= k < r@.len() ==> has_player(state@, (#[trigger] r@[k]).0) && r@[k].1 as nat
                == count_owned_by_model(state@, r@[k].0),
        forall|k1: int, k2: int|
            0 <= k1 < k2 < r@.len() ==> (#[trigger] r@[k1]).0 != (#[trigger] r@[k2]).0,
        forall|k1: int, k2: int|
            0 <= k1 < k2 < r@.len() ==> ((#[trigger] r@[k1]).1 > (#[trigger] r@[k2]).1 || (
            r@[k1].1 == r@[k2].1 && r@[k1].0 < r@[k2].0)),
{
    let n = state.players.len();
    let mut out: Vec<(PlayerId, usize)> = Vec::new();
    let mut id: usize = 1;
    while id <= n
        invariant
            wf(state@),
            n == state@.players.len(),
            n <= 4,
            1 <= id <= n + 1,
            out@.len() == id - 1,
            forall|k: int|
                0 <= k < out@.len() ==> 1 <= (#[trigger] out@[k]).0 < id && out@[k].1 as nat
                    == count_owned_by_model(state@, out@[k].0),
            forall|k1: int, k2: int|
                0 <= k1 < k2 < out@.len() ==> (#[trigger] out@[k1]).0 != (#[trigger] out@[k2]).0,
            forall|k1: int, k2: int|
                0 <= k1 < k2 < out@.len() ==> ((#[trigger] out@[k1]).1 > (#[trigger] out@[k2]).1
                    || (out@[k1].1 == out@[k2].1 && out@[k1].0 < out@[k2].0)),
        decreases n + 1 - id,
    {
        let c = state.count_owned_by(id as PlayerId);
        let mut pos: usize = 0;
        while pos < out.len() && out[pos].1 >= c
            invariant
                pos <= out@.len(),
                forall|k: int| 0 <= k < pos ==> (#[trigger] out@[k]).1 >= c,
            decreases out@.len() - pos,
        {
            pos = pos + 1;
        }
        let ghost old_out = out@;
        out.insert(pos, (id as PlayerId, c));
        proof {
            old_out.insert_ensures(pos as int, (id as PlayerId, c));
            assert forall|k: int| 0 <= k < out@.len() implies 1 <= (#[trigger] out@[k]).0 < id + 1
                && out@[k].1 as nat == count_owned_by_model(state@, out@[k].0) by {
                if k < pos {
                    assert(out@[k] == old_out[k]);
                } else if k > pos {
                    assert(out@[k] == old_out[k - 1]);
                }
            }
            assert forall|k1: int, k2: int| 0 <= k1 < k2 < out@.len() implies ((#[trigger]
            out@[k1]).1 > (#[trigger] out@[k2]).1 || (out@[k1].1 == out@[k2].1 && out@[k1].0
                < out@[k2].0)) by {
                if k1 < pos {
                    assert(out@[k1] == old_out[k1]);
                } else if k1 > pos {
                    assert(out@[k1] == old_out[k1 - 1]);
                }
                if k2 < pos {
                    assert(out@[k2] == old_out[k2]);
                } else if k2 > pos {
                    assert(out@[k2] == old_out[k2 - 1]);
                }
                if k2 == pos as int && k1 < pos {
                    assert(old_out[k1].1 >= c);
                }
                if k1 == pos as int && k2 > pos {
                    assert(old_out[pos as int].1 < c);
                    if k2 - 1 > pos {
                        assert(old_out[pos as int].1 > old_out[k2 - 1].1 || (old_out[
                            pos as int
                        ].1 == old_out[k2 - 1].1 && old_out[pos as int].0 < old_out[k2 - 1].0));
                    }
                    assert(old_out[k2 - 1].1 < c);
                }
            }
            assert forall|k1: int, k2: int| 0 <= k1 < k2 < out@.len() implies (#[trigger]
            out@[k1]).0 != (#[trigger] out@[k2]).0 by {
                if k1 < pos {
                    assert(out@[k1] == old_out[k1]);
                } else if k1 > pos {
                    assert(out@[k1] == old_out[k1 - 1]);
                }
                if k2 < pos {
                    assert(out@[k2] == old_out[k2]);
                } else if k2 > pos {
                    assert(out@[k2] == old_out[k2 - 1]);
                }
            }
        }
        id = id + 1;
    }
    out
}

} // verus!
