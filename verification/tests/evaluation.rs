use chess::{Board, CastleRights, Color};
use craken::evaluation::{
    decisive_score, evaluate, evaluate_board, get_piece_value, material_balance, piece_worth,
    score_position, DECISIVE,
};
use craken::position::{census, count_pieces, inventory, is_playable};
use craken::rules::{MAX_MEN, SQUARES};
use craken::types::{Census, Inventory, Outcome, PieceKind, Side};
use std::str::FromStr;

const START: &str = "rnbqkbnr/pppppppp/8/8/8/8/PPPPPPPP/RNBQKBNR w KQkq - 0 1";
const LONE_KINGS: &str = "4k3/8/8/8/8/8/8/4K3 w - - 0 1";
const FOOLS_MATE: &str = "rnb1kbnr/pppp1ppp/8/4p3/6Pq/5P2/PPPPP2P/RNBQKBNR w KQkq - 1 3";
const BACK_RANK_MATE: &str = "R5k1/5ppp/8/8/8/8/8/4K3 b - - 1 1";
const STALEMATE: &str = "7k/5Q2/6K1/8/8/8/8/8 b - - 0 1";
const QUEEN_UP: &str = "4k3/8/8/8/8/8/8/3QK3 w - - 0 1";
const ROOK_AND_KNIGHT_DOWN: &str = "1nK1Q3/8/8/8/8/4k3/1r6/8 b - - 0 2";
const NINE_QUEENS: &str = "7k/8/8/8/8/8/QRQQQQQN/QQQKRBBN w - - 0 1";
const SEVENTEEN_MEN: &str = "7k/8/8/8/8/7P/PPPPPPPP/RNBQKBNR w - - 0 1";
const SEVENTEEN_MEN_WAITING: &str = "7k/8/8/8/8/7P/PPPPPPPP/RNBQKBNR b - - 0 1";

const ARMY: Census = Census { pawns: 8, knights: 2, bishops: 2, rooks: 2, queens: 1, kings: 1 };
const BARE_KING: Census = Census { pawns: 0, knights: 0, bishops: 0, rooks: 0, queens: 0, kings: 1 };

fn board(fen: &str) -> Board {
    Board::from_str(fen).unwrap()
}

fn material(b: &Board, side: Side) -> i32 {
    material_balance(&inventory(b), side)
}

#[test]
fn piece_values_are_the_usual_ones() {
    assert_eq!(get_piece_value(&PieceKind::King), 0);
    assert_eq!(get_piece_value(&PieceKind::Queen), 900);
    assert_eq!(get_piece_value(&PieceKind::Rook), 500);
    assert_eq!(get_piece_value(&PieceKind::Knight), 300);
    assert_eq!(get_piece_value(&PieceKind::Bishop), 300);
    assert_eq!(get_piece_value(&PieceKind::Pawn), 100);
}

#[test]
fn constants_have_their_values() {
    assert_eq!(DECISIVE, 9000);
    assert_eq!(MAX_MEN, 16);
    assert_eq!(SQUARES, 64);
}

#[test]
fn decisive_score_is_signed_against_the_mated_side() {
    assert_eq!(decisive_score(Side::White, Side::White), -9000);
    assert_eq!(decisive_score(Side::Black, Side::Black), -9000);
    assert_eq!(decisive_score(Side::White, Side::Black), 9000);
    assert_eq!(decisive_score(Side::Black, Side::White), 9000);
}

#[test]
fn piece_worth_multiplies_and_signs() {
    assert_eq!(piece_worth(PieceKind::Pawn, 8, Side::White, Side::White), 800);
    assert_eq!(piece_worth(PieceKind::Pawn, 8, Side::White, Side::Black), -800);
    assert_eq!(piece_worth(PieceKind::Queen, 2, Side::Black, Side::Black), 1800);
    assert_eq!(piece_worth(PieceKind::Queen, 2, Side::Black, Side::White), -1800);
    assert_eq!(piece_worth(PieceKind::Rook, 3, Side::White, Side::White), 1500);
    assert_eq!(piece_worth(PieceKind::Knight, 1, Side::Black, Side::White), -300);
    assert_eq!(piece_worth(PieceKind::Bishop, 0, Side::Black, Side::White), 0);
    assert_eq!(piece_worth(PieceKind::King, 1, Side::White, Side::Black), 0);
}

#[test]
fn piece_worth_of_the_largest_counts() {
    assert_eq!(piece_worth(PieceKind::Queen, 64, Side::White, Side::White), 57600);
    assert_eq!(piece_worth(PieceKind::Queen, 64, Side::White, Side::Black), -57600);
    assert_eq!(piece_worth(PieceKind::Queen, 255, Side::Black, Side::Black), 229500);
    assert_eq!(piece_worth(PieceKind::Queen, 255, Side::Black, Side::White), -229500);
}

#[test]
fn census_and_inventory_give_back_their_counts() {
    let men = Census { pawns: 1, knights: 2, bishops: 3, rooks: 4, queens: 5, kings: 6 };
    assert_eq!(men.get(PieceKind::Pawn), 1);
    assert_eq!(men.get(PieceKind::Knight), 2);
    assert_eq!(men.get(PieceKind::Bishop), 3);
    assert_eq!(men.get(PieceKind::Rook), 4);
    assert_eq!(men.get(PieceKind::Queen), 5);
    assert_eq!(men.get(PieceKind::King), 6);
    let both = Inventory { white: men, black: BARE_KING };
    assert_eq!(both.get(PieceKind::Queen, Side::White), 5);
    assert_eq!(both.get(PieceKind::Queen, Side::Black), 0);
    assert_eq!(both.get(PieceKind::King, Side::Black), 1);
}

#[test]
fn material_balance_of_given_men() {
    let level = Inventory { white: ARMY, black: ARMY };
    assert_eq!(material_balance(&level, Side::White), 0);
    assert_eq!(material_balance(&level, Side::Black), 0);
    let army_against_king = Inventory { white: ARMY, black: BARE_KING };
    assert_eq!(material_balance(&army_against_king, Side::White), 3900);
    assert_eq!(material_balance(&army_against_king, Side::Black), -3900);
    let black_down = Census { pawns: 7, knights: 2, bishops: 1, rooks: 2, queens: 0, kings: 1 };
    let uneven = Inventory { white: ARMY, black: black_down };
    assert_eq!(material_balance(&uneven, Side::White), 1300);
    assert_eq!(material_balance(&uneven, Side::Black), -1300);
}

#[test]
fn material_balance_of_the_largest_counts() {
    let full = Census { pawns: 255, knights: 255, bishops: 255, rooks: 255, queens: 255, kings: 255 };
    let none = Census { pawns: 0, knights: 0, bishops: 0, rooks: 0, queens: 0, kings: 0 };
    let men = Inventory { white: full, black: none };
    assert_eq!(material_balance(&men, Side::White), 535500);
    assert_eq!(material_balance(&men, Side::Black), -535500);
}

#[test]
fn score_position_of_a_mate_is_decisive_whatever_the_men() {
    let men = Inventory { white: ARMY, black: BARE_KING };
    assert_eq!(score_position(Outcome::Checkmate, Side::White, &men, Side::White), -9000);
    assert_eq!(score_position(Outcome::Checkmate, Side::White, &men, Side::Black), 9000);
    assert_eq!(score_position(Outcome::Checkmate, Side::Black, &men, Side::White), 9000);
    assert_eq!(score_position(Outcome::Checkmate, Side::Black, &men, Side::Black), -9000);
}

#[test]
fn score_position_of_a_draw_is_zero_whatever_the_men() {
    let men = Inventory { white: ARMY, black: BARE_KING };
    for mover in [Side::White, Side::Black] {
        for reference in [Side::White, Side::Black] {
            assert_eq!(score_position(Outcome::Draw, mover, &men, reference), 0);
        }
    }
}

#[test]
fn score_position_of_an_ongoing_game_is_the_balance() {
    let men = Inventory { white: ARMY, black: BARE_KING };
    for mover in [Side::White, Side::Black] {
        assert_eq!(score_position(Outcome::Ongoing, mover, &men, Side::White), 3900);
        assert_eq!(score_position(Outcome::Ongoing, mover, &men, Side::Black), -3900);
    }
}

#[test]
fn inventory_of_the_starting_position() {
    let b = board(START);
    assert_eq!(census(&b, Side::White), ARMY);
    assert_eq!(census(&b, Side::Black), ARMY);
    assert_eq!(inventory(&b), Inventory { white: ARMY, black: ARMY });
}

#[test]
fn inventory_tells_the_sides_apart() {
    let men = inventory(&board(ROOK_AND_KNIGHT_DOWN));
    let white = Census { pawns: 0, knights: 0, bishops: 0, rooks: 0, queens: 1, kings: 1 };
    let black = Census { pawns: 0, knights: 1, bishops: 0, rooks: 1, queens: 0, kings: 1 };
    assert_eq!(men, Inventory { white, black });
}

#[test]
fn count_pieces_of_the_starting_position() {
    let b = board(START);
    for side in [Side::White, Side::Black] {
        assert_eq!(count_pieces(&b, PieceKind::Pawn, side), 8);
        assert_eq!(count_pieces(&b, PieceKind::Knight, side), 2);
        assert_eq!(count_pieces(&b, PieceKind::Bishop, side), 2);
        assert_eq!(count_pieces(&b, PieceKind::Rook, side), 2);
        assert_eq!(count_pieces(&b, PieceKind::Queen, side), 1);
        assert_eq!(count_pieces(&b, PieceKind::King, side), 1);
    }
}

#[test]
fn count_pieces_tells_sides_and_kinds_apart() {
    let b = board(ROOK_AND_KNIGHT_DOWN);
    assert_eq!(count_pieces(&b, PieceKind::Queen, Side::White), 1);
    assert_eq!(count_pieces(&b, PieceKind::Queen, Side::Black), 0);
    assert_eq!(count_pieces(&b, PieceKind::Rook, Side::White), 0);
    assert_eq!(count_pieces(&b, PieceKind::Rook, Side::Black), 1);
    assert_eq!(count_pieces(&b, PieceKind::Knight, Side::White), 0);
    assert_eq!(count_pieces(&b, PieceKind::Knight, Side::Black), 1);
    assert_eq!(count_pieces(&b, PieceKind::Pawn, Side::White), 0);
    assert_eq!(count_pieces(&b, PieceKind::Pawn, Side::Black), 0);
    assert_eq!(count_pieces(&b, PieceKind::King, Side::White), 1);
    assert_eq!(count_pieces(&b, PieceKind::King, Side::Black), 1);
}

#[test]
fn material_of_level_positions_is_zero() {
    assert_eq!(material(&board(START), Side::White), 0);
    assert_eq!(material(&board(START), Side::Black), 0);
    assert_eq!(material(&board(LONE_KINGS), Side::White), 0);
    assert_eq!(material(&board(LONE_KINGS), Side::Black), 0);
}

#[test]
fn material_is_the_difference_of_the_two_sides() {
    assert_eq!(material(&board(QUEEN_UP), Side::White), 900);
    assert_eq!(material(&board(QUEEN_UP), Side::Black), -900);
    // White has a queen, Black a rook and a knight.
    assert_eq!(material(&board(ROOK_AND_KNIGHT_DOWN), Side::White), 100);
    assert_eq!(material(&board(ROOK_AND_KNIGHT_DOWN), Side::Black), -100);
    // Material does not look at who is mated.
    assert_eq!(material(&board(BACK_RANK_MATE), Side::White), 200);
    assert_eq!(material(&board(STALEMATE), Side::White), 900);
}

#[test]
fn evaluate_board_of_an_ongoing_game_is_the_material_balance() {
    assert_eq!(evaluate_board(&board(START), Side::White), 0);
    assert_eq!(evaluate_board(&board(QUEEN_UP), Side::White), 900);
    assert_eq!(evaluate_board(&board(QUEEN_UP), Side::Black), -900);
    assert_eq!(evaluate_board(&board(ROOK_AND_KNIGHT_DOWN), Side::White), 100);
    assert_eq!(evaluate_board(&board(ROOK_AND_KNIGHT_DOWN), Side::Black), -100);
}

#[test]
fn lone_kings_evaluate_to_zero() {
    assert_eq!(evaluate_board(&board(LONE_KINGS), Side::White), 0);
    assert_eq!(evaluate_board(&board(LONE_KINGS), Side::Black), 0);
}

#[test]
fn evaluate_board_of_a_mate_is_decisive() {
    // White is to move and mated.
    assert_eq!(evaluate_board(&board(FOOLS_MATE), Side::White), -9000);
    assert_eq!(evaluate_board(&board(FOOLS_MATE), Side::Black), 9000);
    // Black is to move and mated.
    assert_eq!(evaluate_board(&board(BACK_RANK_MATE), Side::White), 9000);
    assert_eq!(evaluate_board(&board(BACK_RANK_MATE), Side::Black), -9000);
}

#[test]
fn evaluate_board_of_a_stalemate_is_zero_whatever_the_material() {
    assert_eq!(evaluate_board(&board(STALEMATE), Side::White), 0);
    assert_eq!(evaluate_board(&board(STALEMATE), Side::Black), 0);
}

#[test]
fn evaluation_is_zero_sum() {
    for fen in [
        START,
        LONE_KINGS,
        FOOLS_MATE,
        BACK_RANK_MATE,
        STALEMATE,
        QUEEN_UP,
        ROOK_AND_KNIGHT_DOWN,
        NINE_QUEENS,
    ] {
        let b = board(fen);
        assert_eq!(
            evaluate_board(&b, Side::White),
            -evaluate_board(&b, Side::Black),
            "{}",
            fen
        );
    }
}

#[test]
fn promoted_queens_count_like_any_queen() {
    let b = board(NINE_QUEENS);
    assert!(is_playable(&b));
    assert_eq!(count_pieces(&b, PieceKind::Queen, Side::White), 9);
    assert_eq!(evaluate_board(&b, Side::White), 10300);
    assert_eq!(evaluate_board(&b, Side::Black), -10300);
}

#[test]
fn ongoing_evaluation_stays_below_decisive_with_the_men_of_the_start() {
    for fen in [START, LONE_KINGS, QUEEN_UP, ROOK_AND_KNIGHT_DOWN] {
        let b = board(fen);
        for side in [Side::White, Side::Black] {
            let score = evaluate_board(&b, side);
            assert!(-DECISIVE < score && score < DECISIVE, "{}", fen);
        }
    }
}

#[test]
fn positions_of_a_game_are_playable() {
    for fen in [START, LONE_KINGS, FOOLS_MATE, BACK_RANK_MATE, STALEMATE, NINE_QUEENS] {
        assert!(is_playable(&board(fen)), "{}", fen);
    }
}

#[test]
#[allow(deprecated)]
fn a_board_that_is_not_sane_is_not_playable() {
    // A right to castle without a rook to castle with.
    let mut broken = board(LONE_KINGS);
    broken.add_castle_rights(Color::White, CastleRights::Both);
    assert!(!broken.is_sane());
    assert!(!is_playable(&broken));
    assert_eq!(evaluate(&broken, Side::White), None);
    assert_eq!(evaluate(&broken, Side::Black), None);
}

#[test]
fn a_side_to_move_with_seventeen_men_is_not_playable() {
    let crowded = board(SEVENTEEN_MEN);
    assert!(crowded.is_sane());
    assert!(!is_playable(&crowded));
    assert_eq!(evaluate(&crowded, Side::White), None);
    assert_eq!(evaluate(&crowded, Side::Black), None);
}

#[test]
fn seventeen_men_of_the_side_that_waits_are_evaluated() {
    let crowded = board(SEVENTEEN_MEN_WAITING);
    assert!(is_playable(&crowded));
    assert_eq!(count_pieces(&crowded, PieceKind::Pawn, Side::White), 9);
    assert_eq!(evaluate(&crowded, Side::White), Some(4000));
    assert_eq!(evaluate(&crowded, Side::Black), Some(-4000));
    assert_eq!(evaluate_board(&crowded, Side::White), 4000);
}

#[test]
fn evaluate_agrees_with_evaluate_board_on_playable_positions() {
    for fen in [START, FOOLS_MATE, BACK_RANK_MATE, STALEMATE, QUEEN_UP, NINE_QUEENS] {
        let b = board(fen);
        for side in [Side::White, Side::Black] {
            assert_eq!(evaluate(&b, side), Some(evaluate_board(&b, side)), "{}", fen);
        }
    }
    assert_eq!(evaluate(&board(QUEEN_UP), Side::Black), Some(-900));
    assert_eq!(evaluate(&board(STALEMATE), Side::White), Some(0));
    assert_eq!(evaluate(&board(FOOLS_MATE), Side::White), Some(-9000));
}
