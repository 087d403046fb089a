//! The boundary to the rules engine.
//!
//! The rules of chess come from the `chess` crate: which moves there are, what
//! position a move leads to, whether the side to move is in check. This module
//! declares that crate's position and move types, gives a name to what each of
//! its operations returns, and wraps each operation in a function whose
//! contract is stated over those names. The wrappers' contracts are not
//! proved: they record what the crate's source shows. All other code of the
//! library is verified against them.

use crate::types::{Outcome, PieceKind, Side};
use chess::{BitBoard, Board, BoardStatus, ChessMove, Color, MoveGen, Piece};
use vstd::prelude::*;

verus! {

/// The largest number of men one side has in a game of chess.
pub const MAX_MEN: u32 = 16;

/// The number of squares of the board, which bounds every count of men.
pub const SQUARES: u32 = 64;

/// `chess::Board`, a position. Its fields are private to the `chess` crate.
#[verifier::external_type_specification]
#[verifier::external_body]
pub struct ExBoard(Board);

/// `chess::ChessMove`, a move. The search only carries moves from the move
/// generator to `make_move_new` and never looks inside one.
#[verifier::external_type_specification]
#[verifier::external_body]
pub struct ExChessMove(ChessMove);

/// What `chess::Board::is_sane` returns for a position: its bitboards agree
/// with each other, each side has exactly one king, the side that has just
/// moved is not in check, and castling rights and the en-passant square fit
/// the men on the board.
pub uninterp spec fn rules_sane(board: Board) -> bool;

/// The player whose turn it is, as `chess::Board::side_to_move` returns it.
pub uninterp spec fn rules_side_to_move(board: Board) -> Side;

/// The squares that hold a man of the given kind, of either side, as
/// `chess::Board::pieces` returns them: a bitboard, with one bit for each
/// square.
pub uninterp spec fn rules_pieces(board: Board, kind: PieceKind) -> u64;

/// The squares that hold a man of the given side, of any kind, as
/// `chess::Board::color_combined` returns them.
pub uninterp spec fn rules_color_combined(board: Board, side: Side) -> u64;

/// The moves that `chess::MoveGen::new_legal` generates for the side to move,
/// in the order in which its iterator yields them.
pub uninterp spec fn rules_legal_moves(board: Board) -> Seq<ChessMove>;

/// Whether some man gives check to the side to move: whether the bitboard that
/// `chess::Board::checkers` returns is not empty.
pub uninterp spec fn rules_in_check(board: Board) -> bool;

/// The position that `chess::Board::make_move_new` returns for a position and
/// a move.
pub uninterp spec fn rules_apply(board: Board, m: ChessMove) -> Board;

/// The number of bits set in a bitboard.
pub open spec fn popcount(bits: u64) -> nat
    decreases bits,
{
    if bits == 0 {
        0
    } else {
        (bits % 2) as nat + popcount(bits / 2)
    }
}

/// The number of men a side has on the board.
pub open spec fn men(board: Board, side: Side) -> nat {
    popcount(rules_color_combined(board, side))
}

/// The positions on which the rules engine may be asked for moves: sane ones in
/// which the side to move has no more men than a game of chess can give it.
/// The move generator keeps one entry for each man of the side to move that
/// can move, and up to two more for en-passant captures, in a list of
/// eighteen places whose bound it does not guard.
pub open spec fn playable(board: Board) -> bool {
    &&& rules_sane(board)
    &&& men(board, rules_side_to_move(board)) <= MAX_MEN
}

/// How the game stands in a position: it goes on while the move generator has
/// a move for the side to move; without one it is checkmate if that side is in
/// check, and a draw if it is not.
pub open spec fn outcome_of(board: Board) -> Outcome {
    if rules_legal_moves(board).len() > 0 {
        Outcome::Ongoing
    } else if rules_in_check(board) {
        Outcome::Checkmate
    } else {
        Outcome::Draw
    }
}

/// Calls `chess::Board::is_sane`. It reads the position only, and tests that
/// each side has a king before it looks for one.
#[verifier::external_body]
pub(crate) fn is_sane(board: &Board) -> (sane: bool)
    ensures
        sane == rules_sane(*board),
{
    board.is_sane()
}

/// Calls `chess::Board::side_to_move`, which returns a field of the position.
#[verifier::external_body]
pub(crate) fn side_to_move(board: &Board) -> (side: Side)
    ensures
        side == rules_side_to_move(*board),
{
    match board.side_to_move() {
        Color::White => Side::White,
        Color::Black => Side::Black,
    }
}

/// Calls `chess::Board::pieces`, which returns the bitboard that the position
/// keeps for a kind of man.
#[verifier::external_body]
pub(crate) fn pieces(board: &Board, kind: PieceKind) -> (bits: u64)
    ensures
        bits == rules_pieces(*board, kind),
{
    let piece = match kind {
        PieceKind::Pawn => Piece::Pawn,
        PieceKind::Knight => Piece::Knight,
        PieceKind::Bishop => Piece::Bishop,
        PieceKind::Rook => Piece::Rook,
        PieceKind::Queen => Piece::Queen,
        PieceKind::King => Piece::King,
    };
    board.pieces(piece).0
}

/// Calls `chess::Board::color_combined`, which returns the bitboard that the
/// position keeps for a side.
#[verifier::external_body]
pub(crate) fn color_combined(board: &Board, side: Side) -> (bits: u64)
    ensures
        bits == rules_color_combined(*board, side),
{
    let color = match side {
        Side::White => Color::White,
        Side::Black => Color::Black,
    };
    board.color_combined(color).0
}

/// Calls `chess::BitBoard::popcnt`, which counts the bits that are set.
#[verifier::external_body]
pub(crate) fn popcnt(bits: u64) -> (count: u32)
    ensures
        count == popcount(bits),
{
    BitBoard(bits).popcnt()
}

/// Calls `chess::Board::status`. That function counts the legal moves of the
/// side to move; with at least one it returns `Ongoing`, with none it returns
/// `Checkmate` if the position's checkers are not empty and `Stalemate` if they
/// are.
#[verifier::external_body]
pub(crate) fn status(board: &Board) -> (outcome: Outcome)
    requires
        playable(*board),
    ensures
        outcome == (if rules_legal_moves(*board).len() > 0 {
            Outcome::Ongoing
        } else if rules_in_check(*board) {
            Outcome::Checkmate
        } else {
            Outcome::Draw
        }),
{
    match board.status() {
        BoardStatus::Ongoing => Outcome::Ongoing,
        BoardStatus::Stalemate => Outcome::Draw,
        BoardStatus::Checkmate => Outcome::Checkmate,
    }
}

/// Calls `chess::MoveGen::new_legal` and collects what the iterator yields, in
/// the order in which it yields it. That order follows from the bitboards of
/// the position alone.
#[verifier::external_body]
pub(crate) fn legal_moves(board: &Board) -> (moves: Vec<ChessMove>)
    requires
        playable(*board),
    ensures
        moves@ == rules_legal_moves(*board),
{
    MoveGen::new_legal(board).collect()
}

/// Calls `chess::Board::make_move_new` with a move that the move generator gave
/// for this position. In a sane position every such move starts from a man of
/// the side to move and takes no king, which is what the function needs to
/// return. Nothing is claimed of the position that it returns but that it is
/// the one named: the move generator lets a pawn take en passant without
/// testing every attack on its own king, so the result need not be sane.
#[verifier::external_body]
pub(crate) fn make_move_new(board: &Board, m: ChessMove) -> (next: Board)
    requires
        playable(*board),
        rules_legal_moves(*board).contains(m),
    ensures
        next == rules_apply(*board, m),
{
    board.make_move_new(m)
}

} // verus!
