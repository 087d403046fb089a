//! Fixed-depth minimax search over chess positions, scored by material.
//!
//! The rules of chess (legal moves, applying a move, check and mate) are
//! supplied by the `chess` crate. What is decided on top of those rules, the
//! static evaluation of a position and the search through the positions that
//! follow it, is verified against the contracts stated here.
//!
//! `evaluation::evaluate_board` returns `evaluation::evaluation` of its
//! arguments, and `search::minimax` returns `search::minimax_value` of its
//! arguments wherever the search is `search::searchable`. Both ask for a
//! position that is `rules::playable`; `evaluation::evaluate` and
//! `search::search` test that first.

pub mod evaluation;
pub mod position;
pub mod rules;
pub mod search;
pub mod types;

pub use evaluation::{evaluate, evaluate_board, get_piece_value, score_position, DECISIVE};
pub use position::{inventory, is_playable};
pub use search::{minimax, search};
pub use types::{Census, Inventory, Outcome, PieceKind, Side};
