//! A small concrete game: a pile of stones from which each player in turn
//! takes one or two, and whoever takes the last stone wins.  It shows the
//! game contract satisfied and gives the search strategies something
//! concrete to run against.

use vstd::prelude::*;

use crate::game::{Estimator, Game, SCORE_BOUND};

verus! {

/// A pile of stones.  A move is the number of stones taken, `1` or `2`,
/// and never more than the pile holds; taking the last stone wins, so a
/// terminal (empty) pile scores `+1` for the player who just emptied it.
#[derive(Clone, Copy, PartialEq, Eq, Structural, Debug)]
pub struct SubtractionGame {
    pub stones: u64,
}

impl Game for SubtractionGame {
    type Move = u64;

    open spec fn spec_moves(&self) -> Seq<u64> {
        if self.stones >= 2 {
            seq![1u64, 2u64]
        } else if self.stones == 1 {
            seq![1u64]
        } else {
            Seq::empty()
        }
    }

    open spec fn spec_apply(&self, m: u64) -> Self {
        SubtractionGame { stones: (self.stones - m) as u64 }
    }

    open spec fn spec_final_score(&self) -> int {
        1
    }

    open spec fn height(&self) -> nat {
        self.stones as nat
    }

    proof fn lemma_height_decreases(&self, m: u64) {
        let ms = self.spec_moves();
        let i = choose|i: int| 0 <= i < ms.len() && ms[i] == m;
        assert(m >= 1);
    }

    proof fn lemma_final_score_in_range(&self) {
    }

    fn start() -> Self {
        SubtractionGame { stones: 21 }
    }

    fn moves(&self) -> (r: Vec<u64>) {
        let mut v: Vec<u64> = Vec::new();
        if self.stones >= 1 {
            v.push(1);
        }
        if self.stones >= 2 {
            v.push(2);
        }
        proof {
            assert(v@ =~= self.spec_moves());
        }
        v
    }

    fn apply_move(&self, m: u64) -> (r: Self) {
        proof {
            let ms = self.spec_moves();
            let i = choose|i: int| 0 <= i < ms.len() && ms[i] == m;
            assert(1 <= m <= self.stones);
        }
        SubtractionGame { stones: self.stones - m }
    }

    fn score_finished_game(&self) -> (r: i64) {
        1
    }
}

/// A heuristic for the subtraction game: a pile whose size is a multiple
/// of three is lost for the player about to move, so it is worth `100` to
/// the player who just left it, and any other pile is worth `-100`.
#[derive(Clone, Copy, PartialEq, Eq, Structural, Debug)]
pub struct PileEstimator;

impl Estimator<SubtractionGame> for PileEstimator {
    open spec fn spec_estimate(&self, g: SubtractionGame) -> int {
        if g.stones % 3 == 0 {
            100
        } else {
            -100
        }
    }

    fn estimate(&self, g: &SubtractionGame) -> (r: i64) {
        if g.stones % 3 == 0 {
            100
        } else {
            -100
        }
    }
}

} // verus!
