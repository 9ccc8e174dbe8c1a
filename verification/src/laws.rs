//! Laws that relate the search strategies to one another: terminal
//! exactness, the irrelevance of the estimator once the budget covers the
//! game, the agreement of the undecayed depth-limited search with the
//! exhaustive one, and the agreement of the per-move parallel reduction
//! with the sequential selection.

use vstd::prelude::*;

use crate::depth_limited::{
    lemma_decay_identity, max_limited, score_limited, spec_best_move_limited,
    spec_root_scores_limited,
};
use crate::exhaustive::{
    lemma_score_fuel_irrelevant, max_fueled, score_fueled, spec_best_move, spec_root_scores,
    spec_score_game,
};
use crate::extremum::first_max_index;
use crate::game::{lemma_child_height, Estimator, Game};

verus! {

/// Terminal exactness: at a position with no legal moves, the exhaustive
/// value and the depth-limited value — whatever the estimator, the decay
/// ratio and the remaining budget — are exactly the terminal score the game
/// supplies.
pub proof fn lemma_terminal_exactness<G: Game, E: Estimator<G>>(
    est: E,
    num: int,
    den: int,
    fuel: nat,
    g: G,
)
    requires
        g.spec_moves().len() == 0,
    ensures
        spec_score_game(g) == g.spec_final_score(),
        score_limited(est, num, den, fuel, g) == g.spec_final_score(),
{
}

/// Once the ply budget covers the position's height, the estimator is never
/// consulted: two depth-limited searches that differ only in their
/// estimators — even estimators of different types — value the position
/// alike.
pub proof fn lemma_estimator_never_consulted<G: Game, E1: Estimator<G>, E2: Estimator<G>>(
    est1: E1,
    est2: E2,
    num: int,
    den: int,
    fuel: nat,
    g: G,
)
    requires
        g.height() <= fuel,
    ensures
        score_limited(est1, num, den, fuel, g) == score_limited(est2, num, den, fuel, g),
    decreases g.height(), g.spec_moves().len() + 2,
{
    if g.spec_moves().len() > 0 {
        lemma_child_height(g, 0);
        lemma_max_estimator_never_consulted(
            est1,
            est2,
            num,
            den,
            (fuel - 1) as nat,
            g,
            g.spec_moves().len(),
        );
    }
}

proof fn lemma_max_estimator_never_consulted<G: Game, E1: Estimator<G>, E2: Estimator<G>>(
    est1: E1,
    est2: E2,
    num: int,
    den: int,
    fuel: nat,
    g: G,
    j: nat,
)
    requires
        1 <= j <= g.spec_moves().len(),
        g.height() <= fuel + 1,
    ensures
        max_limited(est1, num, den, fuel, g, j) == max_limited(est2, num, den, fuel, g, j),
    decreases g.height(), j + 1,
{
    lemma_child_height(g, j - 1);
    lemma_estimator_never_consulted(
        est1,
        est2,
        num,
        den,
        fuel,
        g.spec_apply(g.spec_moves()[j - 1]),
    );
    if j > 1 {
        lemma_max_estimator_never_consulted(est1, est2, num, den, fuel, g, (j - 1) as nat);
    }
}

/// Depth sufficiency: once the ply budget covers the position's height, a
/// depth-limited search whose decay ratio is one values the position
/// exactly as the exhaustive search does, whatever the estimator.
pub proof fn lemma_score_limited_matches_exhaustive<G: Game, E: Estimator<G>>(
    est: E,
    den: int,
    fuel: nat,
    g: G,
)
    requires
        1 <= den,
        g.height() <= fuel,
    ensures
        score_limited(est, den, den, fuel, g) == spec_score_game(g),
    decreases g.height(), g.spec_moves().len() + 2,
{
    lemma_score_fuel_irrelevant(g.height(), fuel, g);
    if g.spec_moves().len() > 0 {
        lemma_child_height(g, 0);
        lemma_max_limited_matches_exhaustive(
            est,
            den,
            (fuel - 1) as nat,
            g,
            g.spec_moves().len(),
        );
        lemma_decay_identity(den, max_fueled((fuel - 1) as nat, g, g.spec_moves().len()));
    }
}

proof fn lemma_max_limited_matches_exhaustive<G: Game, E: Estimator<G>>(
    est: E,
    den: int,
    fuel: nat,
    g: G,
    j: nat,
)
    requires
        1 <= den,
        1 <= j <= g.spec_moves().len(),
        g.height() <= fuel + 1,
    ensures
        max_limited(est, den, den, fuel, g, j) == max_fueled(fuel, g, j),
    decreases g.height(), j + 1,
{
    lemma_child_height(g, j - 1);
    let child = g.spec_apply(g.spec_moves()[j - 1]);
    lemma_score_limited_matches_exhaustive(est, den, fuel, child);
    lemma_score_fuel_irrelevant(child.height(), fuel, child);
    if j > 1 {
        lemma_max_limited_matches_exhaustive(est, den, fuel, g, (j - 1) as nat);
    }
}

/// Depth sufficiency at the root: for a game whose remaining length in
/// plies fits the half-move budget, the depth-limited search with a decay
/// ratio of one chooses the same move as the exhaustive search, for every
/// estimator — move for move, score for score.
pub proof fn lemma_depth_limit_sufficient<G: Game, E: Estimator<G>>(
    est: E,
    den: int,
    fuel: nat,
    g: G,
)
    requires
        1 <= den,
        g.spec_moves().len() > 0,
        g.height() <= fuel + 1,
    ensures
        spec_root_scores_limited(est, den, den, fuel, g) == spec_root_scores(g),
        spec_best_move_limited(est, den, den, fuel, g) == spec_best_move(g),
{
    let rs_limited = spec_root_scores_limited(est, den, den, fuel, g);
    let rs = spec_root_scores(g);
    assert forall|i: int| 0 <= i < rs.len() implies rs_limited[i] == rs[i] by {
        lemma_child_height(g, i);
        let child = g.spec_apply(g.spec_moves()[i]);
        lemma_score_limited_matches_exhaustive(est, den, fuel, child);
    }
    assert(rs_limited =~= rs);
}

/// Parallel reduction: whatever order the per-move evaluations complete in,
/// a reduction that scans the scores in original move order and keeps the
/// first strict improvement chooses exactly the move the sequential
/// depth-limited search chooses.  The score sequence here is indexed by
/// move order, one depth-limited value per legal root move.
pub proof fn lemma_parallel_reduction_agrees<G: Game, E: Estimator<G>>(
    est: E,
    num: int,
    den: int,
    fuel: nat,
    g: G,
    scores: Seq<int>,
)
    requires
        g.spec_moves().len() > 0,
        scores.len() == g.spec_moves().len(),
        forall|i: int|
            0 <= i < scores.len() ==> scores[i] == score_limited(
                est,
                num,
                den,
                fuel,
                g.spec_apply(#[trigger] g.spec_moves()[i]),
            ),
    ensures
        g.spec_moves()[first_max_index(scores)] == spec_best_move_limited(est, num, den, fuel, g),
{
    assert(scores =~= spec_root_scores_limited(est, num, den, fuel, g));
}

} // verus!
