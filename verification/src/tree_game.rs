//! A second concrete game, a small fixed tree: from the root, one move
//! starts a forced three-ply line to a win, the other wins immediately.
//! Both root moves win, which makes the tree the smallest stage for the
//! tie-break and decay behaviour of the search strategies.

use vstd::prelude::*;

use crate::game::{Game, SCORE_BOUND};

verus! {

/// The weight of a win in this game, large enough that the per-ply decay
/// leaves a visible mark.
pub const TREE_WIN: i64 = 1_000_000;

/// The spots of the fixed tree.  From `Root` the first move leads to
/// `Deep`, where the opponent's forced reply reaches `Forced`, whose only
/// move ends at the terminal win `DeepWin`; the second move of `Root` ends
/// at the terminal win `QuickWin` at once.
#[derive(Clone, Copy, PartialEq, Eq, Debug)]
pub enum Spot {
    Root,
    Deep,
    Forced,
    DeepWin,
    QuickWin,
}

/// The fixed game tree; a move names the spot it leads to.
#[derive(Clone, Copy, PartialEq, Eq, Debug)]
pub struct TreeGame {
    pub at: Spot,
}

impl Game for TreeGame {
    type Move = Spot;

    open spec fn spec_moves(&self) -> Seq<Spot> {
        match self.at {
            Spot::Root => seq![Spot::Deep, Spot::QuickWin],
            Spot::Deep => seq![Spot::Forced],
            Spot::Forced => seq![Spot::DeepWin],
            Spot::DeepWin => Seq::empty(),
            Spot::QuickWin => Seq::empty(),
        }
    }

    open spec fn spec_apply(&self, m: Spot) -> Self {
        TreeGame { at: m }
    }

    open spec fn spec_final_score(&self) -> int {
        TREE_WIN as int
    }

    open spec fn height(&self) -> nat {
        match self.at {
            Spot::Root => 3,
            Spot::Deep => 2,
            Spot::Forced => 1,
            Spot::DeepWin => 0,
            Spot::QuickWin => 0,
        }
    }

    proof fn lemma_height_decreases(&self, m: Spot) {
        let ms = self.spec_moves();
        let i = choose|i: int| 0 <= i < ms.len() && ms[i] == m;
    }

    proof fn lemma_final_score_in_range(&self) {
    }

    fn start() -> Self {
        TreeGame { at: Spot::Root }
    }

    fn moves(&self) -> (r: Vec<Spot>) {
        let mut v: Vec<Spot> = Vec::new();
        match self.at {
            Spot::Root => {
                v.push(Spot::Deep);
                v.push(Spot::QuickWin);
            },
            Spot::Deep => {
                v.push(Spot::Forced);
            },
            Spot::Forced => {
                v.push(Spot::DeepWin);
            },
            Spot::DeepWin => {},
            Spot::QuickWin => {},
        }
        proof {
            assert(v@ =~= self.spec_moves());
        }
        v
    }

    fn apply_move(&self, m: Spot) -> (r: Self) {
        TreeGame { at: m }
    }

    fn score_finished_game(&self) -> (r: i64) {
        TREE_WIN
    }
}

} // verus!
