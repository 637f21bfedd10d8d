use cozy_chess::Board;
use slinky_chess::board::{move_text, Move, Piece, Position};
use slinky_chess::ordering::{move_is_capture, piece_value, see_worst_case, sort_moves};
use slinky_chess::search::AlphaBetaSearcher;

fn position(fen: &str) -> Position {
    Position::from_board(Board::from_fen(fen, false).unwrap())
}

fn mv(from: u8, to: u8) -> Move {
    Move { from, to, promotion: None }
}

#[test]
fn pawn_capturing_queen_scores_above_pawn_capturing_pawn() {
    // white pawn d4 can take the queen on c5 or the pawn on e5
    let pos = position("4k3/8/8/2q1p3/3P1P2/8/8/4K3 w - - 0 1");
    let searcher = AlphaBetaSearcher::new();
    let moves = vec![mv(27, 36), mv(29, 36), mv(27, 34)];
    let scores = searcher.score_moves(&pos, &moves, Move::null(), 0);
    assert_eq!(scores[0], 1048576 + 20 - 1);
    assert_eq!(scores[1], 1048576 + 20 - 1);
    assert_eq!(scores[2], 1048576 + 180 - 1);
    assert!(scores[2] > scores[0]);
}

#[test]
fn sorted_order_puts_queen_capture_first_wherever_it_starts() {
    let pos = position("4k3/8/8/2q1p3/3P1P2/8/8/4K3 w - - 0 1");
    let searcher = AlphaBetaSearcher::new();
    let mut moves = vec![mv(4, 3), mv(27, 36), mv(27, 34), mv(29, 36)];
    let mut scores = searcher.score_moves(&pos, &moves, Move::null(), 0);
    sort_moves(&mut moves, &mut scores);
    assert_eq!(moves[0], mv(27, 34));
    // the two equal pawn captures keep their former order
    assert_eq!(moves[1], mv(27, 36));
    assert_eq!(moves[2], mv(29, 36));
    assert_eq!(moves[3], mv(4, 3));
    assert!(scores.windows(2).all(|w| w[0] >= w[1]));
}

#[test]
fn transposition_move_and_promotions_adjust_the_score() {
    let pos = position("4k3/1P6/8/8/8/8/8/4K3 w - - 0 1");
    let searcher = AlphaBetaSearcher::new();
    let queen = Move { from: 49, to: 57, promotion: Some(Piece::Queen) };
    let knight = Move { from: 49, to: 57, promotion: Some(Piece::Knight) };
    let quiet = mv(4, 3);
    let moves = vec![queen, knight, quiet];
    let scores = searcher.score_moves(&pos, &moves, quiet, 0);
    assert_eq!(scores[0], 1048576);
    assert_eq!(scores[1], -2 * 1048576);
    assert_eq!(scores[2], 16777216);
}

#[test]
fn stable_sort_of_equal_scores_keeps_order() {
    let mut moves = vec![mv(1, 2), mv(3, 4), mv(5, 6), mv(7, 8)];
    let mut scores: Vec<i64> = vec![5, 7, 5, 7];
    sort_moves(&mut moves, &mut scores);
    assert_eq!(scores, vec![7, 7, 5, 5]);
    assert_eq!(moves, vec![mv(3, 4), mv(7, 8), mv(1, 2), mv(5, 6)]);
}

#[test]
fn sort_of_empty_list() {
    let mut moves: Vec<Move> = Vec::new();
    let mut scores: Vec<i64> = Vec::new();
    sort_moves(&mut moves, &mut scores);
    assert!(moves.is_empty());
}

#[test]
fn worst_case_exchange_values() {
    let pos = position("4k3/8/8/2q1p3/3P1P2/8/8/4K3 w - - 0 1");
    assert_eq!(see_worst_case(&pos, mv(27, 34)), 900 - 100);
    assert_eq!(see_worst_case(&pos, mv(27, 36)), 0);
    assert_eq!(see_worst_case(&pos, mv(4, 3)), -20000);
    assert_eq!(piece_value(Piece::Knight), 320);
    assert_eq!(piece_value(Piece::Bishop), 330);
    assert_eq!(piece_value(Piece::Rook), 500);
}

#[test]
fn captures_are_moves_onto_occupied_squares() {
    let pos = position("4k3/8/8/2q1p3/3P1P2/8/8/4K3 w - - 0 1");
    assert!(move_is_capture(&pos, &mv(27, 34)));
    assert!(!move_is_capture(&pos, &mv(27, 35)));
}

#[test]
fn move_text_names_squares_and_promotion() {
    assert_eq!(move_text(mv(12, 28)), "e2e4");
    assert_eq!(move_text(Move { from: 52, to: 60, promotion: Some(Piece::Queen) }), "e7e8q");
    assert_eq!(move_text(Move::null()), "a1a1");
}

#[test]
fn legal_moves_of_the_start_position() {
    let pos = Position::from_board(Board::default());
    let moves = pos.legal_moves();
    assert_eq!(moves.len(), 20);
    assert!(moves.contains(&mv(12, 28)));
}

#[test]
fn castling_onto_own_rook_is_not_a_capture() {
    let pos = position("4k3/8/8/8/8/8/8/4K2R w K - 0 1");
    assert!(pos.legal_moves().contains(&mv(4, 7)));
    assert!(!move_is_capture(&pos, &mv(4, 7)));
}

#[test]
fn en_passant_is_a_capture() {
    let pos = position("4k3/8/8/3pP3/8/8/8/4K3 w - d6 0 1");
    assert!(pos.legal_moves().contains(&mv(36, 43)));
    assert!(move_is_capture(&pos, &mv(36, 43)));
    assert!(!move_is_capture(&pos, &mv(36, 44)));
}

#[test]
fn castling_gets_no_capture_bonus() {
    let pos = position("4k3/8/8/8/8/8/8/4K2R w K - 0 1");
    let searcher = AlphaBetaSearcher::new();
    let scores = searcher.score_moves(&pos, &vec![mv(4, 7)], Move::null(), 0);
    assert_eq!(scores[0], 0);
}
