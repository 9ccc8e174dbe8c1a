//! The search strategies run against the subtraction game: a pile of
//! stones, take one or two per turn, taking the last stone wins.

use minimax::depth_limited::{
    best_move_with_depth_limit, best_move_with_depth_limit_decay, score_game_with_depth_limit,
    score_move_with_depth_limit,
};
use minimax::exhaustive::{best_move, checked_best_move, score_game, score_move};
use minimax::extremum::max_by;
use minimax::game::{Game, SearchError, ZeroEstimator};
use minimax::subtraction::{PileEstimator, SubtractionGame};

fn pile(stones: u64) -> SubtractionGame {
    SubtractionGame { stones }
}

#[test]
fn best_move_pile_of_one_takes_one() {
    assert_eq!(best_move(&pile(1)), 1);
}

#[test]
fn best_move_pile_of_two_takes_two() {
    assert_eq!(best_move(&pile(2)), 2);
}

#[test]
fn best_move_pile_of_three_breaks_tie_toward_first_move() {
    // Both moves lose; the first listed move is chosen.
    assert_eq!(best_move(&pile(3)), 1);
}

#[test]
fn best_move_plays_the_modular_theory() {
    assert_eq!(best_move(&pile(4)), 1);
    assert_eq!(best_move(&pile(5)), 2);
    assert_eq!(best_move(&pile(6)), 1);
    assert_eq!(best_move(&pile(7)), 1);
    assert_eq!(best_move(&pile(8)), 2);
}

#[test]
fn score_game_terminal_is_exact() {
    assert_eq!(score_game(&pile(0)), 1);
}

#[test]
fn score_game_depth_limited_terminal_is_exact_whatever_the_budget() {
    assert_eq!(score_game_with_depth_limit(&ZeroEstimator, 0, &pile(0)), 1);
    assert_eq!(score_game_with_depth_limit(&ZeroEstimator, 5, &pile(0)), 1);
    assert_eq!(score_game_with_depth_limit(&PileEstimator, 9, &pile(0)), 1);
}

#[test]
fn score_move_values_both_moves_of_a_two_pile() {
    assert_eq!(score_move(&pile(2), 2), 1);
    assert_eq!(score_move(&pile(2), 1), -1);
}

#[test]
fn score_game_positions_alternate_in_sign() {
    assert_eq!(score_game(&pile(1)), -1);
    assert_eq!(score_game(&pile(2)), -1);
    assert_eq!(score_game(&pile(3)), 1);
    assert_eq!(score_game(&pile(4)), -1);
    assert_eq!(score_game(&pile(6)), 1);
}

#[test]
fn checked_best_move_reports_empty_move_list() {
    assert_eq!(checked_best_move(&pile(0)), Err(SearchError::EmptyMoveList));
}

#[test]
fn checked_best_move_agrees_with_best_move() {
    assert_eq!(checked_best_move(&pile(2)), Ok(2));
    assert_eq!(checked_best_move(&pile(3)), Ok(1));
}

#[test]
fn best_move_is_always_legal() {
    for stones in 1..=12u64 {
        let g = pile(stones);
        let m = best_move(&g);
        assert!(g.moves().contains(&m));
        let dm = best_move_with_depth_limit(&PileEstimator, 2, &g);
        assert!(g.moves().contains(&dm));
    }
}

#[test]
fn depth_limited_tie_breaks_toward_first_move() {
    // With a neutral estimator and a budget of one ply, every root move of
    // a large pile scores alike; the first listed move must win the tie.
    assert_eq!(best_move_with_depth_limit(&ZeroEstimator, 1, &pile(10)), 1);
}

#[test]
fn estimator_consulted_once_budget_is_spent() {
    assert_eq!(score_game_with_depth_limit(&PileEstimator, 0, &pile(7)), -100);
    assert_eq!(score_game_with_depth_limit(&PileEstimator, 0, &pile(6)), 100);
}

#[test]
fn decay_applies_per_ply() {
    // One ply of search from a nine-stone pile: both children are valued
    // -100 by the estimator, so the position is worth -(999 * -100 / 1000),
    // that is 99 after one ply of decay.
    assert_eq!(score_game_with_depth_limit(&PileEstimator, 1, &pile(9)), 99);
}

#[test]
fn depth_limited_search_follows_a_good_estimator() {
    // From ten stones the estimator steers the search to leave a pile of
    // nine, a multiple of three.
    assert_eq!(best_move_with_depth_limit(&PileEstimator, 1, &pile(10)), 1);
}

#[test]
fn depth_limited_with_identity_decay_matches_exhaustive_when_budget_covers_game() {
    // Up to eight stones the game lasts at most eight plies, within the
    // seven-ply budget of a four-round limit plus the root move itself;
    // whatever the estimator, the chosen move matches exhaustive search.
    for stones in 1..=8u64 {
        let g = pile(stones);
        let expected = best_move(&g);
        assert_eq!(best_move_with_depth_limit_decay(&ZeroEstimator, 1, 1, 4, &g), expected);
        assert_eq!(best_move_with_depth_limit_decay(&PileEstimator, 1, 1, 4, &g), expected);
    }
}

#[test]
fn per_move_scores_reduce_to_the_sequential_choice() {
    // What the parallel variant does, minus the threads: score each root
    // move on its own, then reduce the scores in original move order.
    let g = pile(12);
    let halfmove_limit = 2 * 2 - 1;
    let moves = g.moves();
    let mut scores = Vec::new();
    for m in moves.iter() {
        scores.push(score_move_with_depth_limit(&PileEstimator, halfmove_limit, &g, *m));
    }
    let chosen = max_by(&moves, &scores);
    assert_eq!(chosen, best_move_with_depth_limit(&PileEstimator, 2, &g));
}

#[test]
fn largest_round_budget_is_accepted() {
    // The budget is capped only by the engine's round limit; terminal
    // positions end the recursion long before the budget does.
    assert_eq!(best_move_with_depth_limit(&ZeroEstimator, 0x7fff_ffff, &pile(2)), 2);
}
