//! Depth-limited search: bounded negamax recursion that substitutes a
//! caller-supplied heuristic estimator once the ply budget is exhausted,
//! with a small decay applied per ply so that among otherwise equal lines
//! the shorter one is preferred.

use vstd::prelude::*;

use vstd::arithmetic::div_mod::{
    lemma_div_is_ordered, lemma_div_multiples_vanish, lemma_div_pos_is_pos,
};
use vstd::arithmetic::mul::{lemma_mul_inequality, lemma_mul_nonnegative, lemma_mul_upper_bound};

use crate::extremum::{
    first_max_index, int_seq, lemma_first_max_index_props, lemma_seq_max_props, max, max_by,
    max_int, seq_max,
};
use crate::game::{lemma_child_height, Estimator, Game, SCORE_BOUND};

verus! {

/// Numerator of the default per-ply decay ratio.
pub const DECAY_NUMERATOR: u32 = 999;

/// Denominator of the default per-ply decay ratio.
pub const DECAY_DENOMINATOR: u32 = 1000;

/// The per-ply decay: `x` scaled by `num / den`, rounded toward zero.  It
/// is symmetric around zero, so negating a score and decaying it commute,
/// as the negamax recursion expects.
pub open spec fn spec_decay(num: int, den: int, x: int) -> int {
    if x >= 0 {
        (x * num) / den
    } else {
        -(((-x) * num) / den)
    }
}

/// A decay with a ratio of at most one moves a score toward zero and never
/// past it.
pub proof fn lemma_decay_shrinks(num: int, den: int, x: int)
    requires
        1 <= num <= den,
    ensures
        x >= 0 ==> 0 <= spec_decay(num, den, x) <= x,
        x < 0 ==> x <= spec_decay(num, den, x) <= 0,
{
    let a = if x >= 0 { x } else { -x };
    lemma_mul_nonnegative(a, num);
    lemma_mul_inequality(num, den, a);
    lemma_div_is_ordered(a * num, a * den, den);
    lemma_div_multiples_vanish(a, den);
    lemma_div_pos_is_pos(a * num, den);
}

/// A decay whose numerator and denominator are equal changes nothing.
pub proof fn lemma_decay_identity(den: int, x: int)
    requires
        1 <= den,
    ensures
        spec_decay(den, den, x) == x,
{
    let a = if x >= 0 { x } else { -x };
    assert(a * den == den * a);
    lemma_div_multiples_vanish(a, den);
}

/// The depth-limited mover-relative value of a position: the exact terminal
/// score at a terminal position regardless of the remaining budget; the
/// estimator's verdict on the position itself once the budget is spent; and
/// otherwise the decayed negation of the best value the opponent can reach
/// one ply later.
pub open spec fn score_limited<G: Game, E: Estimator<G>>(
    est: E,
    num: int,
    den: int,
    fuel: nat,
    g: G,
) -> int
    decreases fuel, 0nat,
{
    if g.spec_moves().len() == 0 {
        g.spec_final_score()
    } else if fuel == 0 {
        est.spec_estimate(g)
    } else {
        -spec_decay(num, den, max_limited(est, num, den, (fuel - 1) as nat, g, g.spec_moves().len()))
    }
}

/// The greatest depth-limited value, over the first `j` legal moves of `g`,
/// of the position each move reaches.
pub open spec fn max_limited<G: Game, E: Estimator<G>>(
    est: E,
    num: int,
    den: int,
    fuel: nat,
    g: G,
    j: nat,
) -> int
    recommends
        1 <= j <= g.spec_moves().len(),
    decreases fuel, j + 1,
{
    if j <= 1 {
        score_limited(est, num, den, fuel, g.spec_apply(g.spec_moves()[0]))
    } else {
        max_int(
            max_limited(est, num, den, fuel, g, (j - 1) as nat),
            score_limited(est, num, den, fuel, g.spec_apply(g.spec_moves()[j - 1])),
        )
    }
}

/// The depth-limited value of making the legal move `m` at `g`: the value
/// of the position the move reaches, with the whole budget still in hand.
pub open spec fn spec_score_move_limited<G: Game, E: Estimator<G>>(
    est: E,
    num: int,
    den: int,
    fuel: nat,
    g: G,
    m: G::Move,
) -> int {
    score_limited(est, num, den, fuel, g.spec_apply(m))
}

/// The depth-limited values of all legal root moves, in move order.
pub open spec fn spec_root_scores_limited<G: Game, E: Estimator<G>>(
    est: E,
    num: int,
    den: int,
    fuel: nat,
    g: G,
) -> Seq<int> {
    Seq::new(
        g.spec_moves().len(),
        |i: int| spec_score_move_limited(est, num, den, fuel, g, g.spec_moves()[i]),
    )
}

/// The move the depth-limited search selects: the first legal move whose
/// depth-limited value is greatest.
pub open spec fn spec_best_move_limited<G: Game, E: Estimator<G>>(
    est: E,
    num: int,
    den: int,
    fuel: nat,
    g: G,
) -> G::Move {
    g.spec_moves()[first_max_index(spec_root_scores_limited(est, num, den, fuel, g))]
}

/// The first `j` children's depth-limited values, in move order.
pub open spec fn child_scores_limited<G: Game, E: Estimator<G>>(
    est: E,
    num: int,
    den: int,
    fuel: nat,
    g: G,
) -> Seq<int> {
    Seq::new(
        g.spec_moves().len(),
        |i: int| score_limited(est, num, den, fuel, g.spec_apply(g.spec_moves()[i])),
    )
}

proof fn lemma_max_limited_is_seq_max<G: Game, E: Estimator<G>>(
    est: E,
    num: int,
    den: int,
    fuel: nat,
    g: G,
    j: nat,
)
    requires
        1 <= j <= g.spec_moves().len(),
    ensures
        max_limited(est, num, den, fuel, g, j) == seq_max(
            child_scores_limited(est, num, den, fuel, g).take(j as int),
        ),
    decreases j,
{
    let cs = child_scores_limited(est, num, den, fuel, g);
    if j == 1 {
        assert(cs.take(1)[0] == cs[0]);
    } else {
        lemma_max_limited_is_seq_max(est, num, den, fuel, g, (j - 1) as nat);
        assert(cs.take(j as int).drop_last() =~= cs.take(j - 1));
        assert(cs.take(j as int).last() == cs[j - 1]);
    }
}

/// The decay, as executable code: `x` scaled by `num / den`, rounded toward
/// zero.
fn decay(num: u32, den: u32, x: i64) -> (r: i64)
    requires
        1 <= num <= den,
        -SCORE_BOUND <= x <= SCORE_BOUND,
    ensures
        r == spec_decay(num as int, den as int, x as int),
        -SCORE_BOUND <= r <= SCORE_BOUND,
{
    proof {
        lemma_decay_shrinks(num as int, den as int, x as int);
    }
    let neg = x < 0;
    let a: u64 = if neg {
        (-x) as u64
    } else {
        x as u64
    };
    proof {
        lemma_mul_upper_bound(a as int, SCORE_BOUND as int, num as int, u32::MAX as int);
    }
    let p: u64 = a * (num as u64);
    let q: u64 = p / (den as u64);
    proof {
        lemma_div_is_ordered(0, p as int, den as int);
        lemma_div_pos_is_pos(p as int, den as int);
    }
    if neg {
        -(q as i64)
    } else {
        q as i64
    }
}

/// The depth-limited value of the position reached by the legal move `m`
/// from `g`, searched with an explicit decay ratio.
pub fn score_move_with_depth_limit_decay<G: Game, E: Estimator<G>>(
    estimator: &E,
    num: u32,
    den: u32,
    halfmove_limit: u32,
    g: &G,
    m: G::Move,
) -> (r: i64)
    requires
        1 <= num <= den,
        g.spec_moves().contains(m),
    ensures
        r == spec_score_move_limited(
            *estimator,
            num as int,
            den as int,
            halfmove_limit as nat,
            *g,
            m,
        ),
        -SCORE_BOUND <= r <= SCORE_BOUND,
    decreases halfmove_limit, 1nat,
{
    let g1 = g.apply_move(m);
    score_game_with_depth_limit_decay(estimator, num, den, halfmove_limit, &g1)
}

/// The depth-limited mover-relative value of a position, searched with an
/// explicit decay ratio: exact at terminal positions, the estimator's value
/// once the ply budget is spent, and the decayed negamax recursion
/// otherwise.
pub fn score_game_with_depth_limit_decay<G: Game, E: Estimator<G>>(
    estimator: &E,
    num: u32,
    den: u32,
    halfmove_limit: u32,
    g: &G,
) -> (r: i64)
    requires
        1 <= num <= den,
    ensures
        r == score_limited(*estimator, num as int, den as int, halfmove_limit as nat, *g),
        -SCORE_BOUND <= r <= SCORE_BOUND,
    decreases halfmove_limit, 0nat,
{
    let moves = g.moves();
    if moves.len() == 0 {
        proof {
            g.lemma_final_score_in_range();
        }
        g.score_finished_game()
    } else if halfmove_limit == 0 {
        estimator.estimate(g)
    } else {
        let ghost fuel = (halfmove_limit - 1) as nat;
        let mut scores: Vec<i64> = Vec::new();
        let mut j: usize = 0;
        while j < moves.len()
            invariant
                1 <= num <= den,
                moves@ == g.spec_moves(),
                0 < moves@.len(),
                j <= moves@.len(),
                scores@.len() == j,
                halfmove_limit >= 1,
                fuel == (halfmove_limit - 1) as nat,
                int_seq(scores@) == child_scores_limited(
                    *estimator,
                    num as int,
                    den as int,
                    fuel,
                    *g,
                ).take(j as int),
                forall|k: int|
                    0 <= k < scores@.len() ==> -SCORE_BOUND <= #[trigger] scores@[k]
                        <= SCORE_BOUND,
            decreases moves@.len() - j,
        {
            let m = moves[j];
            proof {
                lemma_child_height(*g, j as int);
            }
            let s = score_move_with_depth_limit_decay(
                estimator,
                num,
                den,
                halfmove_limit - 1,
                g,
                m,
            );
            scores.push(s);
            proof {
                assert(int_seq(scores@) =~= child_scores_limited(
                    *estimator,
                    num as int,
                    den as int,
                    fuel,
                    *g,
                ).take(j + 1));
            }
            j += 1;
        }
        let best = max(&scores);
        proof {
            let cs = child_scores_limited(*estimator, num as int, den as int, fuel, *g);
            assert(cs.take(moves@.len() as int) =~= cs);
            lemma_max_limited_is_seq_max(
                *estimator,
                num as int,
                den as int,
                fuel,
                *g,
                g.spec_moves().len(),
            );
            lemma_seq_max_props(int_seq(scores@));
        }
        let d = decay(num, den, best);
        -d
    }
}

/// The best next move at `g` under a ply budget, searched with an explicit
/// decay ratio.  The budget is given in full rounds of the searching player
/// and converted to the odd half-move budget `2 * move_limit - 1`, so the
/// searcher never commits to a move without an opposing reply accounted
/// for.  `g` must have at least one legal move.
pub fn best_move_with_depth_limit_decay<G: Game, E: Estimator<G>>(
    estimator: &E,
    num: u32,
    den: u32,
    move_limit: u32,
    g: &G,
) -> (r: G::Move)
    requires
        1 <= num <= den,
        1 <= move_limit <= 0x7fff_ffff,
        g.spec_moves().len() > 0,
    ensures
        r == spec_best_move_limited(
            *estimator,
            num as int,
            den as int,
            (2 * move_limit - 1) as nat,
            *g,
        ),
        g.spec_moves().contains(r),
{
    let halfmove_limit: u32 = 2 * move_limit - 1;
    let ghost fuel = halfmove_limit as nat;
    let moves = g.moves();
    let mut scores: Vec<i64> = Vec::new();
    let mut j: usize = 0;
    while j < moves.len()
        invariant
            1 <= num <= den,
            moves@ == g.spec_moves(),
            0 < moves@.len(),
            j <= moves@.len(),
            scores@.len() == j,
            fuel == halfmove_limit as nat,
            int_seq(scores@) == spec_root_scores_limited(
                *estimator,
                num as int,
                den as int,
                fuel,
                *g,
            ).take(j as int),
        decreases moves@.len() - j,
    {
        let m = moves[j];
        proof {
            lemma_child_height(*g, j as int);
        }
        let s = score_move_with_depth_limit_decay(estimator, num, den, halfmove_limit, g, m);
        scores.push(s);
        proof {
            assert(int_seq(scores@) =~= spec_root_scores_limited(
                *estimator,
                num as int,
                den as int,
                fuel,
                *g,
            ).take(j + 1));
        }
        j += 1;
    }
    proof {
        let rs = spec_root_scores_limited(*estimator, num as int, den as int, fuel, *g);
        assert(rs.take(moves@.len() as int) =~= rs);
        lemma_first_max_index_props(rs);
        lemma_child_height(*g, first_max_index(rs));
    }
    max_by(&moves, &scores)
}

/// The depth-limited value of making the legal move `m` at `g`, with the
/// default decay ratio.
pub fn score_move_with_depth_limit<G: Game, E: Estimator<G>>(
    estimator: &E,
    halfmove_limit: u32,
    g: &G,
    m: G::Move,
) -> (r: i64)
    requires
        g.spec_moves().contains(m),
    ensures
        r == spec_score_move_limited(
            *estimator,
            DECAY_NUMERATOR as int,
            DECAY_DENOMINATOR as int,
            halfmove_limit as nat,
            *g,
            m,
        ),
        -SCORE_BOUND <= r <= SCORE_BOUND,
{
    score_move_with_depth_limit_decay(
        estimator,
        DECAY_NUMERATOR,
        DECAY_DENOMINATOR,
        halfmove_limit,
        g,
        m,
    )
}

/// The depth-limited mover-relative value of a position, with the default
/// decay ratio.
pub fn score_game_with_depth_limit<G: Game, E: Estimator<G>>(
    estimator: &E,
    halfmove_limit: u32,
    g: &G,
) -> (r: i64)
    ensures
        r == score_limited(
            *estimator,
            DECAY_NUMERATOR as int,
            DECAY_DENOMINATOR as int,
            halfmove_limit as nat,
            *g,
        ),
        -SCORE_BOUND <= r <= SCORE_BOUND,
{
    score_game_with_depth_limit_decay(estimator, DECAY_NUMERATOR, DECAY_DENOMINATOR, halfmove_limit, g)
}

/// The best next move at `g` under a ply budget of `2 * move_limit - 1`
/// half-moves, with the default decay ratio.  `g` must have at least one
/// legal move.
pub fn best_move_with_depth_limit<G: Game, E: Estimator<G>>(
    estimator: &E,
    move_limit: u32,
    g: &G,
) -> (r: G::Move)
    requires
        1 <= move_limit <= 0x7fff_ffff,
        g.spec_moves().len() > 0,
    ensures
        r == spec_best_move_limited(
            *estimator,
            DECAY_NUMERATOR as int,
            DECAY_DENOMINATOR as int,
            (2 * move_limit - 1) as nat,
            *g,
        ),
        g.spec_moves().contains(r),
{
    best_move_with_depth_limit_decay(estimator, DECAY_NUMERATOR, DECAY_DENOMINATOR, move_limit, g)
}

} // verus!
