//! The search: the value of a position when both sides play their best move
//! for a fixed number of plies.
//!
//! The search is full-width minimax. It visits every position that the moves
//! of the rules engine reach within the depth given, scores the positions at
//! which it stops with the static evaluator, and hands the scores back up:
//! where the reference side is to move it takes the largest score among the
//! successors, where the opponent is to move the smallest.
//!
//! The rules engine does not promise that a move leads to a position about
//! which it can be asked again, so the search tests each position before it
//! goes on from it, and gives no value if the test fails.

use crate::evaluation::{
    evaluate_board, evaluation, kings_alone, lemma_evaluation_zero_sum,
    lemma_kings_alone_are_level,
};
use crate::position::is_playable;
use crate::rules::{
    legal_moves, make_move_new, outcome_of, playable, rules_apply, rules_legal_moves,
    rules_side_to_move, side_to_move, status,
};
use crate::types::{Outcome, Side};
use chess::{Board, ChessMove};
use vstd::prelude::*;

verus! {

/// The largest of the values if `maximizing`, the smallest if not.
pub open spec fn extremum(values: Seq<int>, maximizing: bool) -> int {
    if maximizing {
        values.max()
    } else {
        values.min()
    }
}

/// The better of two values: the larger if `maximizing`, the smaller if not.
pub open spec fn better(a: int, b: int, maximizing: bool) -> int {
    if maximizing {
        if a >= b {
            a
        } else {
            b
        }
    } else {
        if a <= b {
            a
        } else {
            b
        }
    }
}

/// The value of a position for the reference side when the game is played on
/// for `depth` plies, each side choosing what is best for itself.
///
/// At depth zero, and in a position in which the game has ended, it is the
/// static evaluation. Otherwise it is taken from the values that the
/// successors have one ply less deep: the largest of them where the reference
/// side is to move, the smallest where its opponent is.
pub open spec fn minimax_value(board: Board, depth: nat, reference: Side) -> int
    decreases depth, 0nat,
{
    if depth == 0 || outcome_of(board) != Outcome::Ongoing {
        evaluation(board, reference)
    } else {
        extremum(
            successor_values(board, (depth - 1) as nat, reference),
            rules_side_to_move(board) == reference,
        )
    }
}

/// The values, at the given depth, of the positions that the legal moves of a
/// position lead to, in the order of the moves.
pub open spec fn successor_values(board: Board, depth: nat, reference: Side) -> Seq<int>
    decreases depth, 1nat,
{
    Seq::new(
        rules_legal_moves(board).len(),
        |i: int| minimax_value(rules_apply(board, rules_legal_moves(board)[i]), depth, reference),
    )
}

/// The positions from which the search can go `depth` plies deep: the
/// position is playable, and so is every position that the search comes to
/// on its way, down to the positions at which it stops.
pub open spec fn searchable(board: Board, depth: nat) -> bool
    decreases depth,
{
    &&& playable(board)
    &&& depth > 0 && outcome_of(board) is Ongoing ==> forall|i: int|
        0 <= i < rules_legal_moves(board).len() ==> searchable(
            rules_apply(board, #[trigger] rules_legal_moves(board)[i]),
            (depth - 1) as nat,
        )
}

/// Adding a value to a sequence that is not empty changes the extremum to the
/// better of the old extremum and the new value.
proof fn lemma_extremum_push(values: Seq<int>, x: int, maximizing: bool)
    requires
        values.len() > 0,
    ensures
        extremum(values.push(x), maximizing) == better(extremum(values, maximizing), x, maximizing),
    decreases values.len(),
{
    let longer = values.push(x);
    if values.len() == 1 {
        assert(longer.drop_first() =~= seq![x]);
        assert(seq![x].max() == x);
        assert(seq![x].min() == x);
    } else {
        assert(longer.drop_first() =~= values.drop_first().push(x));
        lemma_extremum_push(values.drop_first(), x, maximizing);
    }
}

/// The better of two values.
pub fn pick(best: i32, candidate: i32, maximizing: bool) -> (chosen: i32)
    ensures
        chosen == better(best as int, candidate as int, maximizing),
{
    if maximizing {
        if best >= candidate {
            best
        } else {
            candidate
        }
    } else {
        if best <= candidate {
            best
        } else {
            candidate
        }
    }
}

/// The value, `depth` plies deep, of the position that a move leads to, or
/// `None` if the search cannot go that deep from there.
fn successor_value(
    board: &Board,
    m: ChessMove,
    depth: usize,
    reference: Side,
) -> (value: Option<i32>)
    requires
        playable(*board),
        rules_legal_moves(*board).contains(m),
    ensures
        match value {
            Some(v) => searchable(rules_apply(*board, m), depth as nat) && v == minimax_value(
                rules_apply(*board, m),
                depth as nat,
                reference,
            ),
            None => !searchable(rules_apply(*board, m), depth as nat),
        },
    decreases depth, 1nat,
{
    let next: Board = make_move_new(board, m);
    if is_playable(&next) {
        minimax(next, depth, reference)
    } else {
        None
    }
}

/// Searches `depth` plies deep from `board` and returns the value of the
/// position for `maximizing_player`.
///
/// `maximizing_player` is the side in whose favour scores are counted all
/// through the search; it need not be the side to move.
///
/// Each position that a move leads to is tested before it is searched. The
/// result is `None` if one of them, at any ply within the depth, is not
/// playable.
pub fn minimax(board: Board, depth: usize, maximizing_player: Side) -> (value: Option<i32>)
    requires
        playable(board),
    ensures
        match value {
            Some(v) => searchable(board, depth as nat) && v == minimax_value(
                board,
                depth as nat,
                maximizing_player,
            ),
            None => !searchable(board, depth as nat),
        },
    decreases depth, 0nat,
{
    if depth == 0 || status(&board) != Outcome::Ongoing {
        return Some(evaluate_board(&board, maximizing_player));
    }
    let maximizing: bool = side_to_move(&board) == maximizing_player;
    let moves: Vec<ChessMove> = legal_moves(&board);
    let ghost values: Seq<int> = successor_values(board, (depth - 1) as nat, maximizing_player);
    let mut best: i32 = match successor_value(&board, moves[0], depth - 1, maximizing_player) {
        Some(value) => value,
        None => {
            return None;
        },
    };
    let mut i: usize = 1;
    while i < moves.len()
        invariant
            1 <= i <= moves.len(),
            depth > 0,
            playable(board),
            moves@ == rules_legal_moves(board),
            values == successor_values(board, (depth - 1) as nat, maximizing_player),
            best == extremum(values.take(i as int), maximizing),
            forall|k: int|
                0 <= k < i ==> searchable(
                    rules_apply(board, #[trigger] rules_legal_moves(board)[k]),
                    (depth - 1) as nat,
                ),
        decreases moves.len() - i,
    {
        let value: i32 = match successor_value(&board, moves[i], depth - 1, maximizing_player) {
            Some(value) => value,
            None => {
                return None;
            },
        };
        proof {
            assert(values.take(i + 1) =~= values.take(i as int).push(value as int));
            lemma_extremum_push(values.take(i as int), value as int, maximizing);
        }
        best = pick(best, value, maximizing);
        i = i + 1;
    }
    assert(values.take(i as int) =~= values);
    Some(best)
}

/// Searches as `minimax` does, after testing that the rules engine can be asked
/// about the position. Returns `None` if the position is not playable, or if
/// the search comes to a position that is not.
pub fn search(board: Board, depth: usize, reference: Side) -> (value: Option<i32>)
    ensures
        match value {
            Some(v) => searchable(board, depth as nat) && v == minimax_value(
                board,
                depth as nat,
                reference,
            ),
            None => !searchable(board, depth as nat),
        },
{
    if is_playable(&board) {
        minimax(board, depth, reference)
    } else {
        None
    }
}

/// Searching no ply deep is evaluating: at depth zero the value of any
/// position is its static evaluation.
pub proof fn lemma_depth_zero_is_evaluation(board: Board, reference: Side)
    ensures
        minimax_value(board, 0, reference) == evaluation(board, reference),
{
}

/// A game that has ended is not searched further: at any depth the value of a
/// position that is mate or drawn is its static evaluation.
pub proof fn lemma_ended_game_is_evaluation(board: Board, depth: nat, reference: Side)
    requires
        outcome_of(board) != Outcome::Ongoing,
    ensures
        minimax_value(board, depth, reference) == evaluation(board, reference),
{
}

/// A forced move costs one ply and changes nothing else: where exactly one
/// move is legal, the value of the position at a depth of at least one is the
/// value of the position that the move leads to, one ply less deep.
pub proof fn lemma_forced_move(board: Board, depth: nat, reference: Side)
    requires
        rules_legal_moves(board).len() == 1,
        depth >= 1,
    ensures
        minimax_value(board, depth, reference) == minimax_value(
            rules_apply(board, rules_legal_moves(board)[0]),
            (depth - 1) as nat,
            reference,
        ),
{
}

/// The value of a position in which the game goes on is the value of one of
/// its successors, and no successor is better for the side to move: none is
/// higher where the reference side moves, none lower where its opponent does.
pub proof fn lemma_value_is_best_successor(board: Board, depth: nat, reference: Side)
    requires
        depth >= 1,
        outcome_of(board) is Ongoing,
    ensures
        successor_values(board, (depth - 1) as nat, reference).contains(
            minimax_value(board, depth, reference),
        ),
        forall|i: int|
            0 <= i < rules_legal_moves(board).len() ==> if rules_side_to_move(board) == reference {
                #[trigger] successor_values(board, (depth - 1) as nat, reference)[i]
                    <= minimax_value(board, depth, reference)
            } else {
                minimax_value(board, depth, reference) <= successor_values(
                    board,
                    (depth - 1) as nat,
                    reference,
                )[i]
            },
{
    let values = successor_values(board, (depth - 1) as nat, reference);
    values.max_ensures();
    values.min_ensures();
}

/// Changing the sign of every value turns the largest into the smallest.
proof fn lemma_extremum_negated(values: Seq<int>, negated: Seq<int>, maximizing: bool)
    requires
        values.len() > 0,
        negated.len() == values.len(),
        forall|i: int| 0 <= i < values.len() ==> negated[i] == -values[i],
    ensures
        extremum(negated, !maximizing) == -extremum(values, maximizing),
{
    values.max_ensures();
    values.min_ensures();
    negated.max_ensures();
    negated.min_ensures();
    if maximizing {
        let i = choose|i: int| 0 <= i < values.len() && values[i] == values.max();
        let j = choose|j: int| 0 <= j < negated.len() && negated[j] == negated.min();
        assert(negated[i] == -values[i]);
        assert(negated[j] == -values[j]);
    } else {
        let i = choose|i: int| 0 <= i < values.len() && values[i] == values.min();
        let j = choose|j: int| 0 <= j < negated.len() && negated[j] == negated.max();
        assert(negated[i] == -values[i]);
        assert(negated[j] == -values[j]);
    }
}

/// The search is zero-sum: at every depth, what a position is worth to one
/// side, it costs the other.
pub proof fn lemma_minimax_zero_sum(board: Board, depth: nat, reference: Side)
    ensures
        minimax_value(board, depth, reference) == -minimax_value(
            board,
            depth,
            reference.opponent(),
        ),
    decreases depth,
{
    if depth == 0 || outcome_of(board) != Outcome::Ongoing {
        lemma_evaluation_zero_sum(board, reference);
    } else {
        let below = (depth - 1) as nat;
        let ours = successor_values(board, below, reference);
        let theirs = successor_values(board, below, reference.opponent());
        assert forall|i: int| 0 <= i < ours.len() implies theirs[i] == -ours[i] by {
            lemma_minimax_zero_sum(
                rules_apply(board, rules_legal_moves(board)[i]),
                below,
                reference,
            );
        }
        lemma_extremum_negated(ours, theirs, rules_side_to_move(board) == reference);
    }
}

/// Whether every position at which a search of `depth` plies stops has an
/// evaluation between `lo` and `hi`.
pub open spec fn leaves_within(board: Board, depth: nat, reference: Side, lo: int, hi: int) -> bool
    decreases depth,
{
    if depth == 0 || outcome_of(board) != Outcome::Ongoing {
        lo <= evaluation(board, reference) <= hi
    } else {
        forall|i: int|
            0 <= i < rules_legal_moves(board).len() ==> leaves_within(
                rules_apply(board, #[trigger] rules_legal_moves(board)[i]),
                (depth - 1) as nat,
                reference,
                lo,
                hi,
            )
    }
}

/// The search invents no score: its value lies between any two bounds between
/// which the evaluations of all the positions lie at which it stops.
pub proof fn lemma_value_within_leaves(
    board: Board,
    depth: nat,
    reference: Side,
    lo: int,
    hi: int,
)
    requires
        leaves_within(board, depth, reference, lo, hi),
    ensures
        lo <= minimax_value(board, depth, reference) <= hi,
    decreases depth,
{
    if depth > 0 && outcome_of(board) is Ongoing {
        let below = (depth - 1) as nat;
        let values = successor_values(board, below, reference);
        let value = minimax_value(board, depth, reference);
        lemma_value_is_best_successor(board, depth, reference);
        let i = choose|i: int| 0 <= i < values.len() && values[i] == value;
        lemma_value_within_leaves(
            rules_apply(board, rules_legal_moves(board)[i]),
            below,
            reference,
            lo,
            hi,
        );
    }
}

/// Whether the search, `depth` plies deep, comes to no position but such as
/// hold no man but kings and in which nobody is mated.
pub open spec fn kings_alone_within(board: Board, depth: nat) -> bool
    decreases depth,
{
    &&& kings_alone(board)
    &&& !(outcome_of(board) is Checkmate)
    &&& depth > 0 && outcome_of(board) is Ongoing ==> forall|i: int|
        0 <= i < rules_legal_moves(board).len() ==> kings_alone_within(
            rules_apply(board, #[trigger] rules_legal_moves(board)[i]),
            (depth - 1) as nat,
        )
}

/// Two kings alone are level at every depth: where the search comes to no
/// position but such as hold no man but kings and in which nobody is mated,
/// the value is zero for either side.
pub proof fn lemma_kings_alone_search_to_zero(board: Board, depth: nat, reference: Side)
    requires
        kings_alone_within(board, depth),
    ensures
        minimax_value(board, depth, reference) == 0,
{
    lemma_kings_alone_leaves(board, depth, reference);
    lemma_value_within_leaves(board, depth, reference, 0, 0);
}

/// Where the search comes to kings alone, it stops at positions worth nothing.
proof fn lemma_kings_alone_leaves(board: Board, depth: nat, reference: Side)
    requires
        kings_alone_within(board, depth),
    ensures
        leaves_within(board, depth, reference, 0, 0),
    decreases depth,
{
    if depth == 0 || outcome_of(board) != Outcome::Ongoing {
        lemma_kings_alone_are_level(board, reference);
    } else {
        assert forall|i: int| 0 <= i < rules_legal_moves(board).len() implies leaves_within(
            rules_apply(board, #[trigger] rules_legal_moves(board)[i]),
            (depth - 1) as nat,
            reference,
            0,
            0,
        ) by {
            lemma_kings_alone_leaves(
                rules_apply(board, rules_legal_moves(board)[i]),
                (depth - 1) as nat,
                reference,
            );
        }
    }
}

} // verus!
