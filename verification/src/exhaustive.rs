//! Exhaustive search: full-depth negamax recursion to terminal positions
//! only — no heuristics, no ply limit.

use vstd::prelude::*;

use crate::extremum::{
    first_max_index, int_seq, lemma_first_max_index_props, lemma_seq_max_props, max, max_by,
    max_int, seq_max,
};
use crate::game::{lemma_child_height, Game, SearchError, SCORE_BOUND};

verus! {

/// The mover-relative value of a position, computed with a fuel bound on the
/// recursion depth: the exact terminal score at a terminal position, and
/// otherwise the negation of the best value the opponent can reach one ply
/// later.  The fuel only serves termination; any fuel at least the
/// position's height gives the same value.
pub open spec fn score_fueled<G: Game>(fuel: nat, g: G) -> int
    decreases fuel, 0nat,
{
    if g.spec_moves().len() == 0 {
        g.spec_final_score()
    } else if fuel == 0 {
        0
    } else {
        -max_fueled((fuel - 1) as nat, g, g.spec_moves().len())
    }
}

/// The greatest value, over the first `j` legal moves of `g`, of the
/// position each move reaches, valued with the given fuel.
pub open spec fn max_fueled<G: Game>(fuel: nat, g: G, j: nat) -> int
    recommends
        1 <= j <= g.spec_moves().len(),
    decreases fuel, j + 1,
{
    if j <= 1 {
        score_fueled(fuel, g.spec_apply(g.spec_moves()[0]))
    } else {
        max_int(
            max_fueled(fuel, g, (j - 1) as nat),
            score_fueled(fuel, g.spec_apply(g.spec_moves()[j - 1])),
        )
    }
}

/// The mover-relative value of a position: its exact terminal score if the
/// game is over, and otherwise the negation of the best value its opponent
/// can achieve one ply later.
pub open spec fn spec_score_game<G: Game>(g: G) -> int {
    score_fueled(g.height(), g)
}

/// The value, to the player about to move at `g`, of making the legal move
/// `m`: the value of the position the move reaches.
pub open spec fn spec_score_move<G: Game>(g: G, m: G::Move) -> int {
    spec_score_game(g.spec_apply(m))
}

/// The values of all legal root moves, in move order.
pub open spec fn spec_root_scores<G: Game>(g: G) -> Seq<int> {
    Seq::new(g.spec_moves().len(), |i: int| spec_score_move(g, g.spec_moves()[i]))
}

/// The move the exhaustive search selects: the first legal move whose value
/// is greatest.
pub open spec fn spec_best_move<G: Game>(g: G) -> G::Move {
    g.spec_moves()[first_max_index(spec_root_scores(g))]
}

/// The fuel bound does not matter once it covers the position's height.
pub proof fn lemma_score_fuel_irrelevant<G: Game>(fuel1: nat, fuel2: nat, g: G)
    requires
        g.height() <= fuel1,
        g.height() <= fuel2,
    ensures
        score_fueled(fuel1, g) == score_fueled(fuel2, g),
    decreases g.height(), g.spec_moves().len() + 2,
{
    if g.spec_moves().len() > 0 {
        lemma_child_height(g, 0);
        lemma_max_fuel_irrelevant(
            (fuel1 - 1) as nat,
            (fuel2 - 1) as nat,
            g,
            g.spec_moves().len(),
        );
    }
}

proof fn lemma_max_fuel_irrelevant<G: Game>(fuel1: nat, fuel2: nat, g: G, j: nat)
    requires
        1 <= j <= g.spec_moves().len(),
        g.height() <= fuel1 + 1,
        g.height() <= fuel2 + 1,
    ensures
        max_fueled(fuel1, g, j) == max_fueled(fuel2, g, j),
    decreases g.height(), j + 1,
{
    lemma_child_height(g, j - 1);
    lemma_score_fuel_irrelevant(fuel1, fuel2, g.spec_apply(g.spec_moves()[j - 1]));
    if j > 1 {
        lemma_max_fuel_irrelevant(fuel1, fuel2, g, (j - 1) as nat);
    }
}

/// The first `j` children's values, in move order, valued with the given
/// fuel.
pub open spec fn child_scores<G: Game>(fuel: nat, g: G) -> Seq<int> {
    Seq::new(
        g.spec_moves().len(),
        |i: int| score_fueled(fuel, g.spec_apply(g.spec_moves()[i])),
    )
}

proof fn lemma_max_fueled_is_seq_max<G: Game>(fuel: nat, g: G, j: nat)
    requires
        1 <= j <= g.spec_moves().len(),
    ensures
        max_fueled(fuel, g, j) == seq_max(child_scores(fuel, g).take(j as int)),
    decreases j,
{
    let cs = child_scores(fuel, g);
    if j == 1 {
        assert(cs.take(1)[0] == cs[0]);
    } else {
        lemma_max_fueled_is_seq_max(fuel, g, (j - 1) as nat);
        assert(cs.take(j as int).drop_last() =~= cs.take(j - 1));
        assert(cs.take(j as int).last() == cs[j - 1]);
    }
}

/// The value of the position the legal move `m` reaches from `g`.
pub fn score_move<G: Game>(g: &G, m: G::Move) -> (r: i64)
    requires
        g.spec_moves().contains(m),
    ensures
        r == spec_score_move(*g, m),
        -SCORE_BOUND <= r <= SCORE_BOUND,
    decreases g.height(), 0nat,
{
    proof {
        g.lemma_height_decreases(m);
    }
    let g1 = g.apply_move(m);
    score_game(&g1)
}

/// The mover-relative value of a position: recurses to every terminal
/// position reachable from it.
pub fn score_game<G: Game>(g: &G) -> (r: i64)
    ensures
        r == spec_score_game(*g),
        -SCORE_BOUND <= r <= SCORE_BOUND,
    decreases g.height(), 1nat,
{
    let moves = g.moves();
    if moves.len() == 0 {
        proof {
            g.lemma_final_score_in_range();
        }
        g.score_finished_game()
    } else {
        proof {
            lemma_child_height(*g, 0);
        }
        let ghost fuel = (g.height() - 1) as nat;
        let mut scores: Vec<i64> = Vec::new();
        let mut j: usize = 0;
        while j < moves.len()
            invariant
                moves@ == g.spec_moves(),
                0 < moves@.len(),
                j <= moves@.len(),
                scores@.len() == j,
                g.height() >= 1,
                fuel == (g.height() - 1) as nat,
                int_seq(scores@) == child_scores(fuel, *g).take(j as int),
                forall|k: int|
                    0 <= k < scores@.len() ==> -SCORE_BOUND <= #[trigger] scores@[k]
                        <= SCORE_BOUND,
            decreases moves@.len() - j,
        {
            let m = moves[j];
            proof {
                lemma_child_height(*g, j as int);
            }
            let s = score_move(g, m);
            scores.push(s);
            proof {
                lemma_score_fuel_irrelevant(g.spec_apply(m).height(), fuel, g.spec_apply(m));
                assert(int_seq(scores@) =~= child_scores(fuel, *g).take(j + 1));
            }
            j += 1;
        }
        let best = max(&scores);
        proof {
            assert(child_scores(fuel, *g).take(moves@.len() as int) =~= child_scores(fuel, *g));
            lemma_max_fueled_is_seq_max(fuel, *g, g.spec_moves().len());
            lemma_seq_max_props(int_seq(scores@));
        }
        -best
    }
}

/// The best next move at `g`: the first legal move whose value is greatest.
/// `g` must have at least one legal move.
pub fn best_move<G: Game>(g: &G) -> (r: G::Move)
    requires
        g.spec_moves().len() > 0,
    ensures
        r == spec_best_move(*g),
        g.spec_moves().contains(r),
{
    let moves = g.moves();
    let mut scores: Vec<i64> = Vec::new();
    let mut j: usize = 0;
    while j < moves.len()
        invariant
            moves@ == g.spec_moves(),
            0 < moves@.len(),
            j <= moves@.len(),
            scores@.len() == j,
            int_seq(scores@) == spec_root_scores(*g).take(j as int),
        decreases moves@.len() - j,
    {
        let m = moves[j];
        proof {
            lemma_child_height(*g, j as int);
        }
        let s = score_move(g, m);
        scores.push(s);
        proof {
            assert(int_seq(scores@) =~= spec_root_scores(*g).take(j + 1));
        }
        j += 1;
    }
    proof {
        assert(spec_root_scores(*g).take(moves@.len() as int) =~= spec_root_scores(*g));
        lemma_first_max_index_props(spec_root_scores(*g));
        lemma_child_height(*g, first_max_index(spec_root_scores(*g)));
    }
    max_by(&moves, &scores)
}

/// The checked form of [`best_move`]: instead of demanding a position with
/// at least one legal move, it reports the contract violation as a value.
/// It returns the best move exactly when the position has a legal move, and
/// the empty-move-list error exactly when it has none.
pub fn checked_best_move<G: Game>(g: &G) -> (r: Result<G::Move, SearchError>)
    ensures
        g.spec_moves().len() == 0 ==> r == Err::<G::Move, SearchError>(SearchError::EmptyMoveList),
        g.spec_moves().len() > 0 ==> r == Ok::<G::Move, SearchError>(spec_best_move(*g)),
{
    let moves = g.moves();
    if moves.len() == 0 {
        Err(SearchError::EmptyMoveList)
    } else {
        Ok(best_move(g))
    }
}

} // verus!
