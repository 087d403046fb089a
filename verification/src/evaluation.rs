//! The static evaluator: the score of one position, seen from a fixed side.
//!
//! A position in which the side to move is mated is worth the decisive score,
//! counted against the side that is mated. A drawn position is worth nothing.
//! Any other position is worth its material balance: the value of the
//! reference side's men less the value of the opponent's.

use crate::position::{inventory, inventory_of, is_playable};
use crate::rules::{outcome_of, playable, rules_side_to_move, side_to_move, status};
use crate::types::{Census, Inventory, Outcome, PieceKind, Side};
use chess::Board;
use vstd::prelude::*;

verus! {

/// The score of a position that is won. A lost one scores its negative.
pub const DECISIVE: i32 = 9000;

/// What one man of a kind is worth.
pub open spec fn piece_value(kind: PieceKind) -> int {
    match kind {
        PieceKind::King => 0,
        PieceKind::Queen => 900,
        PieceKind::Rook => 500,
        PieceKind::Knight => 300,
        PieceKind::Bishop => 300,
        PieceKind::Pawn => 100,
    }
}

/// What all the men of one side are worth together. Men of one kind count
/// alike, whether they stood on the board from the start or came by promotion.
pub open spec fn side_material(men: Census) -> int {
    piece_value(PieceKind::Pawn) * men.count(PieceKind::Pawn)
        + piece_value(PieceKind::Knight) * men.count(PieceKind::Knight)
        + piece_value(PieceKind::Bishop) * men.count(PieceKind::Bishop)
        + piece_value(PieceKind::Rook) * men.count(PieceKind::Rook)
        + piece_value(PieceKind::Queen) * men.count(PieceKind::Queen)
        + piece_value(PieceKind::King) * men.count(PieceKind::King)
}

/// The material of the reference side less that of its opponent.
pub open spec fn balance(men: Inventory, reference: Side) -> int {
    side_material(men.of(reference)) - side_material(men.of(reference.opponent()))
}

/// What a mate is worth to the reference side: the decisive score if the
/// opponent is the one to move and so the one mated, its negative if the
/// reference side is.
pub open spec fn mate_score(mover: Side, reference: Side) -> int {
    if mover != reference {
        DECISIVE as int
    } else {
        -DECISIVE
    }
}

/// What a number of men of one kind and side add to the balance of the
/// reference side.
pub open spec fn signed_worth(kind: PieceKind, count: nat, side: Side, reference: Side) -> int {
    if side == reference {
        piece_value(kind) * count
    } else {
        -(piece_value(kind) * count)
    }
}

/// The score, for the reference side, of a position with the given outcome,
/// side to move and men.
pub open spec fn score(outcome: Outcome, mover: Side, men: Inventory, reference: Side) -> int {
    match outcome {
        Outcome::Checkmate => mate_score(mover, reference),
        Outcome::Draw => 0,
        Outcome::Ongoing => balance(men, reference),
    }
}

/// The score of a position for the reference side.
pub open spec fn evaluation(board: Board, reference: Side) -> int {
    score(outcome_of(board), rules_side_to_move(board), inventory_of(board), reference)
}

/// The kinds in the order in which the balance is summed.
spec fn kind_at(i: int) -> PieceKind {
    if i == 0 {
        PieceKind::Pawn
    } else if i == 1 {
        PieceKind::Knight
    } else if i == 2 {
        PieceKind::Bishop
    } else if i == 3 {
        PieceKind::Rook
    } else if i == 4 {
        PieceKind::Queen
    } else {
        PieceKind::King
    }
}

/// What the men of one kind, of both sides, add to the balance.
spec fn kind_balance(men: Inventory, kind: PieceKind, reference: Side) -> int {
    signed_worth(kind, men.white.count(kind), Side::White, reference) + signed_worth(
        kind,
        men.black.count(kind),
        Side::Black,
        reference,
    )
}

/// The balance over the first `n` kinds.
spec fn balance_of_kinds(men: Inventory, reference: Side, n: nat) -> int
    decreases n,
{
    if n == 0 {
        0
    } else {
        balance_of_kinds(men, reference, (n - 1) as nat) + kind_balance(
            men,
            kind_at(n - 1),
            reference,
        )
    }
}

/// No count that fits a byte is worth more than 255 queens.
proof fn lemma_worth_bound(kind: PieceKind, count: u8, side: Side, reference: Side)
    ensures
        -229500 <= signed_worth(kind, count as nat, side, reference) <= 229500,
{
}

/// Summed over all six kinds, the balance is the difference of the two sides'
/// material.
proof fn lemma_balance_of_all_kinds(men: Inventory, reference: Side)
    ensures
        balance_of_kinds(men, reference, 6) == balance(men, reference),
{
    reveal_with_fuel(balance_of_kinds, 7);
}

/// The evaluation is zero-sum: what a position is worth to one side, it costs
/// the other.
pub proof fn lemma_evaluation_zero_sum(board: Board, reference: Side)
    ensures
        evaluation(board, reference) == -evaluation(board, reference.opponent()),
{
}

/// A drawn position is worth nothing to either side, whatever stands on the
/// board.
pub proof fn lemma_draw_is_zero(board: Board, reference: Side)
    requires
        outcome_of(board) is Draw,
    ensures
        evaluation(board, reference) == 0,
{
}

/// The material of a side is never negative, and the balance lies between what
/// the opponent has, counted against the reference side, and what the
/// reference side has.
pub proof fn lemma_balance_between_materials(men: Inventory, reference: Side)
    ensures
        side_material(men.white) >= 0,
        side_material(men.black) >= 0,
        -side_material(men.of(reference.opponent())) <= balance(men, reference) <= side_material(
            men.of(reference),
        ),
{
}

/// A game that goes on is never scored as one that is decided, as long as
/// neither side has material worth the decisive score or more: the evaluation
/// then lies strictly between the negative of the decisive score and the
/// decisive score.
pub proof fn lemma_undecided_below_decisive(board: Board, reference: Side)
    requires
        outcome_of(board) is Ongoing,
        side_material(inventory_of(board).white) < DECISIVE,
        side_material(inventory_of(board).black) < DECISIVE,
    ensures
        -DECISIVE < evaluation(board, reference) < DECISIVE,
{
    lemma_balance_between_materials(inventory_of(board), reference);
}

/// Whether no man but kings stands on the board.
pub open spec fn kings_alone(board: Board) -> bool {
    forall|kind: PieceKind, side: Side|
        kind != PieceKind::King ==> #[trigger] inventory_of(board).of(side).count(kind) == 0
}

/// Kings weigh nothing: a position with no man but kings, in which nobody is
/// mated, is worth nothing to either side.
pub proof fn lemma_kings_alone_are_level(board: Board, reference: Side)
    requires
        kings_alone(board),
        !(outcome_of(board) is Checkmate),
    ensures
        evaluation(board, reference) == 0,
{
    let men = inventory_of(board);
    assert forall|side: Side| side_material(#[trigger] men.of(side)) == 0 by {
        assert(men.of(side).count(PieceKind::Pawn) == 0);
        assert(men.of(side).count(PieceKind::Knight) == 0);
        assert(men.of(side).count(PieceKind::Bishop) == 0);
        assert(men.of(side).count(PieceKind::Rook) == 0);
        assert(men.of(side).count(PieceKind::Queen) == 0);
    }
    assert(side_material(men.of(reference)) == 0);
    assert(side_material(men.of(reference.opponent())) == 0);
}

/// The value of one man of the given kind.
pub fn get_piece_value(piece: &PieceKind) -> (value: i32)
    ensures
        value == piece_value(*piece),
{
    match piece {
        PieceKind::King => 0,
        PieceKind::Queen => 900,
        PieceKind::Rook => 500,
        PieceKind::Knight => 300,
        PieceKind::Bishop => 300,
        PieceKind::Pawn => 100,
    }
}

/// The score of a position in which the side to move is mated.
pub fn decisive_score(mover: Side, reference: Side) -> (value: i32)
    ensures
        value == mate_score(mover, reference),
{
    if mover != reference {
        DECISIVE
    } else {
        -DECISIVE
    }
}

/// What `count` men of one kind and side add to the balance of the reference
/// side: their value, counted against the reference side if they are the
/// opponent's.
pub fn piece_worth(kind: PieceKind, count: u8, side: Side, reference: Side) -> (worth: i32)
    ensures
        worth == signed_worth(kind, count as nat, side, reference),
{
    let piece_value: i32 = get_piece_value(&kind) * (count as i32);
    if side == reference {
        piece_value
    } else {
        -piece_value
    }
}

/// The material balance of the reference side: what its men are worth, less
/// what the opponent's are worth.
pub fn material_balance(men: &Inventory, reference: Side) -> (total: i32)
    ensures
        total == balance(*men, reference),
{
    let kinds: [PieceKind; 6] = [
        PieceKind::Pawn,
        PieceKind::Knight,
        PieceKind::Bishop,
        PieceKind::Rook,
        PieceKind::Queen,
        PieceKind::King,
    ];
    let sides: [Side; 2] = [Side::White, Side::Black];
    let mut pieces_value: i32 = 0;
    let mut i: usize = 0;
    while i < 6
        invariant
            i <= 6,
            forall|k: int| 0 <= k < 6 ==> kinds[k] == kind_at(k),
            sides[0] == Side::White,
            sides[1] == Side::Black,
            pieces_value == balance_of_kinds(*men, reference, i as nat),
            -459000 * i <= pieces_value <= 459000 * i,
        decreases 6 - i,
    {
        let kind: PieceKind = kinds[i];
        let ghost before: int = pieces_value as int;
        let mut j: usize = 0;
        while j < 2
            invariant
                j <= 2,
                i < 6,
                kind == kind_at(i as int),
                sides[0] == Side::White,
                sides[1] == Side::Black,
                -459000 * i <= before <= 459000 * i,
                -229500 * j <= pieces_value - before <= 229500 * j,
                j == 0 ==> pieces_value == before,
                j == 1 ==> pieces_value == before + signed_worth(
                    kind,
                    men.white.count(kind),
                    Side::White,
                    reference,
                ),
                j == 2 ==> pieces_value == before + kind_balance(*men, kind, reference),
            decreases 2 - j,
        {
            let side: Side = sides[j];
            let number_of_pieces: u8 = men.get(kind, side);
            proof {
                lemma_worth_bound(kind, number_of_pieces, side, reference);
            }
            pieces_value = pieces_value + piece_worth(kind, number_of_pieces, side, reference);
            j = j + 1;
        }
        i = i + 1;
    }
    proof {
        lemma_balance_of_all_kinds(*men, reference);
    }
    pieces_value
}

/// The score, for the reference side, of a position whose outcome, side to
/// move and men are given.
///
/// A mate scores the decisive score, counted against the side to move; a draw
/// scores zero; a game that goes on scores the material balance.
pub fn score_position(
    outcome: Outcome,
    mover: Side,
    men: &Inventory,
    reference: Side,
) -> (value: i32)
    ensures
        value == score(outcome, mover, *men, reference),
{
    match outcome {
        Outcome::Checkmate => decisive_score(mover, reference),
        Outcome::Draw => 0,
        Outcome::Ongoing => material_balance(men, reference),
    }
}

/// Scores a position for `maximizing_player`: higher is better for that side.
///
/// A position in which the side to move is mated scores the decisive score if
/// `maximizing_player` gave the mate and its negative if it is mated; a
/// stalemate scores zero; a position in which the game goes on scores its
/// material balance.
pub fn evaluate_board(board: &Board, maximizing_player: Side) -> (value: i32)
    requires
        playable(*board),
    ensures
        value == evaluation(*board, maximizing_player),
{
    let outcome: Outcome = status(board);
    let mover: Side = side_to_move(board);
    let men: Inventory = inventory(board);
    score_position(outcome, mover, &men, maximizing_player)
}

/// Scores a position as `evaluate_board` does, after testing that the rules
/// engine can be asked about it. Returns `None` for a position that is not
/// playable.
pub fn evaluate(board: &Board, reference: Side) -> (value: Option<i32>)
    ensures
        match value {
            Some(v) => playable(*board) && v == evaluation(*board, reference),
            None => !playable(*board),
        },
{
    if is_playable(board) {
        Some(evaluate_board(board, reference))
    } else {
        None
    }
}

} // verus!
