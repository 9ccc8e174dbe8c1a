//! The search strategies on the fixed tree game: two winning root moves,
//! one three plies deep and one immediate.

use minimax::depth_limited::{best_move_with_depth_limit, best_move_with_depth_limit_decay};
use minimax::exhaustive::{best_move, score_game};
use minimax::game::ZeroEstimator;
use minimax::tree_game::{Spot, TreeGame, TREE_WIN};

#[test]
fn exhaustive_ties_and_keeps_the_first_winning_move() {
    // Both root moves are exact wins, so the exhaustive search ties them
    // and keeps the first.
    let g = TreeGame { at: Spot::Root };
    assert_eq!(best_move(&g), Spot::Deep);
    assert_eq!(score_game(&TreeGame { at: Spot::Deep }), TREE_WIN);
    assert_eq!(score_game(&TreeGame { at: Spot::QuickWin }), TREE_WIN);
}

#[test]
fn decayed_search_prefers_the_shallower_win() {
    // Under the default decay the deep win loses two plies of value
    // (999/1000 twice), while the immediate win keeps its exact terminal
    // score, so the depth-limited search picks the second move instead.
    let g = TreeGame { at: Spot::Root };
    assert_eq!(best_move_with_depth_limit(&ZeroEstimator, 2, &g), Spot::QuickWin);
}

#[test]
fn identity_decay_restores_the_exhaustive_choice() {
    let g = TreeGame { at: Spot::Root };
    assert_eq!(best_move_with_depth_limit_decay(&ZeroEstimator, 1, 1, 2, &g), Spot::Deep);
}
