//! What the library reads off a position: whether the rules engine can be
//! asked about it, and which men stand on it.

use crate::rules::{
    color_combined, is_sane, pieces, playable, popcnt, popcount, rules_color_combined,
    rules_pieces, side_to_move, MAX_MEN, SQUARES,
};
use crate::types::{Census, Inventory, PieceKind, Side};
use chess::Board;
use vstd::arithmetic::power2::{lemma2_to64, lemma_pow2_unfold, pow2};
use vstd::prelude::*;

verus! {

/// The number of men of a kind that a side has on the board: the number of
/// squares that hold both that side and that kind.
pub open spec fn piece_count(board: Board, kind: PieceKind, side: Side) -> nat {
    popcount(rules_color_combined(board, side) & rules_pieces(board, kind))
}

/// The men of one side on the board, counted by kind.
pub open spec fn census_of(board: Board, side: Side) -> Census {
    Census {
        pawns: piece_count(board, PieceKind::Pawn, side) as u8,
        knights: piece_count(board, PieceKind::Knight, side) as u8,
        bishops: piece_count(board, PieceKind::Bishop, side) as u8,
        rooks: piece_count(board, PieceKind::Rook, side) as u8,
        queens: piece_count(board, PieceKind::Queen, side) as u8,
        kings: piece_count(board, PieceKind::King, side) as u8,
    }
}

/// The men of both sides on the board.
pub open spec fn inventory_of(board: Board) -> Inventory {
    Inventory { white: census_of(board, Side::White), black: census_of(board, Side::Black) }
}

/// A bitboard below `2^width` has at most `width` bits set.
proof fn lemma_popcount_width(bits: u64, width: nat)
    requires
        bits < pow2(width),
    ensures
        popcount(bits) <= width,
    decreases width,
{
    if bits != 0 {
        if width == 0 {
            lemma2_to64();
        } else {
            lemma_pow2_unfold(width);
            lemma_popcount_width(bits / 2, (width - 1) as nat);
        }
    }
}

/// No bitboard has more bits set than the board has squares.
pub proof fn lemma_popcount_bound(bits: u64)
    ensures
        popcount(bits) <= SQUARES,
{
    lemma2_to64();
    lemma_popcount_width(bits, 64);
}

/// A census of a board counts what stands on it: each of its numbers is the
/// number of men of that kind and side.
pub proof fn lemma_census_counts(board: Board, kind: PieceKind, side: Side)
    ensures
        census_of(board, side).count(kind) == piece_count(board, kind, side),
        inventory_of(board).of(side) == census_of(board, side),
        piece_count(board, kind, side) <= SQUARES,
{
    lemma_popcount_bound(rules_color_combined(board, side) & rules_pieces(board, kind));
}

/// Whether a position may be handed to the evaluator and the search: whether
/// it is sane and the side to move has no more men than a game of chess can
/// give it.
pub fn is_playable(board: &Board) -> (ok: bool)
    ensures
        ok == playable(*board),
{
    is_sane(board) && popcnt(color_combined(board, side_to_move(board))) <= MAX_MEN
}

/// The number of men of a kind that a side has on the board.
pub fn count_pieces(board: &Board, kind: PieceKind, side: Side) -> (count: u8)
    ensures
        count == piece_count(*board, kind, side),
        count <= SQUARES,
{
    let bits: u64 = color_combined(board, side) & pieces(board, kind);
    proof {
        lemma_popcount_bound(bits);
    }
    let number_of_pieces: u32 = popcnt(bits);
    number_of_pieces as u8
}

/// The men of one side on the board, counted by kind.
pub fn census(board: &Board, side: Side) -> (men: Census)
    ensures
        men == census_of(*board, side),
{
    Census {
        pawns: count_pieces(board, PieceKind::Pawn, side),
        knights: count_pieces(board, PieceKind::Knight, side),
        bishops: count_pieces(board, PieceKind::Bishop, side),
        rooks: count_pieces(board, PieceKind::Rook, side),
        queens: count_pieces(board, PieceKind::Queen, side),
        kings: count_pieces(board, PieceKind::King, side),
    }
}

/// The men of both sides on the board.
pub fn inventory(board: &Board) -> (men: Inventory)
    ensures
        men == inventory_of(*board),
{
    Inventory { white: census(board, Side::White), black: census(board, Side::Black) }
}

} // verus!
