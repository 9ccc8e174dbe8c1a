//! The capability contract that every playable game must satisfy, together
//! with the estimator contract used by the depth-limited search.

use vstd::prelude::*;

verus! {

/// Largest magnitude a terminal score or a heuristic estimate may have.
///
/// Keeping every leaf score within this bound lets the engine negate scores
/// and apply the per-ply decay (a multiplication by a `u32` numerator) without
/// any intermediate value leaving the `i64` range.
pub const SCORE_BOUND: i64 = 1_000_000_000;

/// The abstract two-player, zero-sum, turn-alternating game.
///
/// Scores follow the negamax convention: a score is always expressed relative
/// to the player who most recently moved to reach the position.  A strictly
/// positive terminal score means the most recent mover won, zero means a
/// draw, and a negative score means the most recent mover lost; win and loss
/// scores of equal weight should be antisymmetric for the zero-sum recursion
/// to be meaningful.
pub trait Game: Clone + Sized {
    /// A small, copyable value identifying one legal transition.
    type Move: Copy;

    /// The ordered sequence of legal moves from this position; an empty
    /// sequence signals that the game is over.  Order defines tie-break
    /// priority for every search strategy.
    spec fn spec_moves(&self) -> Seq<Self::Move>;

    /// The position that results from making a legal move.
    spec fn spec_apply(&self, m: Self::Move) -> Self;

    /// The mover-relative score of a terminal position.
    spec fn spec_final_score(&self) -> int;

    /// An upper-bound measure on the number of plies the game can still
    /// last; every legal move must strictly decrease it, so every play is
    /// finite and the exhaustive search terminates.
    spec fn height(&self) -> nat;

    /// Law: each legal move strictly decreases the height measure.
    proof fn lemma_height_decreases(&self, m: Self::Move)
        requires
            self.spec_moves().contains(m),
        ensures
            self.spec_apply(m).height() < self.height(),
    ;

    /// Law: terminal scores stay inside the engine's score range.
    proof fn lemma_final_score_in_range(&self)
        requires
            self.spec_moves().len() == 0,
        ensures
            -SCORE_BOUND <= self.spec_final_score() <= SCORE_BOUND,
    ;

    /// The initial position.  Consumed by callers and tests; the search core
    /// itself never needs it.
    fn start() -> Self;

    /// The legal moves from this position, in tie-break order.
    fn moves(&self) -> (r: Vec<Self::Move>)
        ensures
            r@ == self.spec_moves(),
    ;

    /// The position after making the legal move `m`.  Must be a pure
    /// function of the position and the move.
    fn apply_move(&self, m: Self::Move) -> (r: Self)
        requires
            self.spec_moves().contains(m),
        ensures
            r == self.spec_apply(m),
    ;

    /// The mover-relative score of a terminal position.
    fn score_finished_game(&self) -> (r: i64)
        requires
            self.spec_moves().len() == 0,
        ensures
            r == self.spec_final_score(),
    ;
}

/// The error a checked search entry point reports when its caller breaks
/// the usage contract.
#[derive(Clone, Copy, PartialEq, Eq, Debug)]
pub enum SearchError {
    /// A search entry point was called on a position with no legal moves,
    /// that is, on a position where the game is already over.
    EmptyMoveList,
}

/// The child reached by the move at index `i` stands strictly lower in the
/// height measure, and that move is one of the position's legal moves.
pub proof fn lemma_child_height<G: Game>(g: G, i: int)
    requires
        0 <= i < g.spec_moves().len(),
    ensures
        g.spec_moves().contains(g.spec_moves()[i]),
        g.spec_apply(g.spec_moves()[i]).height() < g.height(),
        g.height() >= 1,
{
    let ms = g.spec_moves();
    assert(ms.contains(ms[i]));
    g.lemma_height_decreases(ms[i]);
}

/// A deterministic, side-effect-free heuristic that scores a non-terminal
/// position from the point of view of the player who just moved to reach it.
pub trait Estimator<G: Game>: Sized {
    /// The estimate as a mathematical function of the position.
    spec fn spec_estimate(&self, g: G) -> int;

    /// The estimate itself.  It must equal `spec_estimate` — the same
    /// position always gets the same value — and stay inside the engine's
    /// score range.
    fn estimate(&self, g: &G) -> (r: i64)
        ensures
            r == self.spec_estimate(*g),
            -SCORE_BOUND <= r <= SCORE_BOUND,
    ;
}

/// The estimator that has no opinion: it values every position at zero,
/// for any game.  Useful as a neutral default and wherever the search is
/// expected to reach terminal positions anyway.
#[derive(Clone, Copy, PartialEq, Eq, Structural, Debug)]
pub struct ZeroEstimator;

impl<G: Game> Estimator<G> for ZeroEstimator {
    open spec fn spec_estimate(&self, g: G) -> int {
        0
    }

    fn estimate(&self, g: &G) -> (r: i64) {
        0
    }
}

} // verus!
