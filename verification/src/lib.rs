//! A generic adversarial game-tree search engine.
//!
//! Given an abstract two-player, zero-sum, turn-alternating game, the engine
//! computes the locally optimal next move.  Three strategies are offered:
//! exhaustive negamax to the end of the game, depth-bounded negamax that falls
//! back to a caller-supplied heuristic estimator, and (through a thin thread
//! fan-out layer that the library's deterministic reduction supports) a
//! parallel variant of the bounded search.

pub mod depth_limited;
pub mod exhaustive;
pub mod extremum;
pub mod game;
pub mod laws;
pub mod subtraction;
pub mod tree_game;
