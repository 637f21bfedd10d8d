use cozy_chess::Board;
use slinky_chess::board::{Color, Piece, Position};
use slinky_chess::evaluation::{
    get_square_score_eg, get_square_score_mg, has_open_file, has_semi_open_file,
    pawn_is_doubled, pesto_evaluate_from_scratch, piece_phase,
};

fn position(fen: &str) -> Position {
    Position::from_board(Board::from_fen(fen, false).unwrap())
}

#[test]
fn start_position_scores_the_tempo_bonus() {
    let pos = Position::from_board(Board::default());
    assert_eq!(pesto_evaluate_from_scratch(&pos), 15);
}

#[test]
fn start_position_with_black_to_move_is_symmetric() {
    let pos = position("rnbqkbnr/pppppppp/8/8/8/8/PPPPPPPP/RNBQKBNR b KQkq - 0 1");
    assert_eq!(pesto_evaluate_from_scratch(&pos), 15);
}

#[test]
fn queen_up_blends_midgame_and_endgame() {
    // mg = 1050, eg = 893, phase 4: (1050 * 4 + 893 * 20) / 24 = 919
    let pos = position("4k3/8/8/8/8/8/8/3QK3 w - - 0 1");
    assert_eq!(pesto_evaluate_from_scratch(&pos), 919);
}

#[test]
fn queen_up_with_black_to_move_is_negated() {
    // mg = 1020, eg = 893: (4080 + 17860) / 24 = 914, from black's side
    let pos = position("4k3/8/8/8/8/8/8/3QK3 b - - 0 1");
    assert_eq!(pesto_evaluate_from_scratch(&pos), -914);
}

#[test]
fn evaluation_is_repeatable() {
    let pos = position("r1bqkb1r/pppp1ppp/2n2n2/4p3/2B1P3/5N2/PPPP1PPP/RNBQK2R w KQkq - 4 4");
    let first = pesto_evaluate_from_scratch(&pos);
    let second = pesto_evaluate_from_scratch(&pos);
    assert_eq!(first, second);
}

#[test]
fn square_scores_read_the_table_from_the_owner_side() {
    // white queen on d1 reads the last row of the table
    assert_eq!(get_square_score_mg(3, Color::White, Piece::Queen), 1025 + 10);
    assert_eq!(get_square_score_eg(3, Color::White, Piece::Queen), 936 - 43);
    // black queen on d8 reads the same entry
    assert_eq!(get_square_score_mg(59, Color::Black, Piece::Queen), 1025 + 10);
    // white pawn on e7 reads the second row
    assert_eq!(get_square_score_mg(52, Color::White, Piece::Pawn), 82 + 68);
    assert_eq!(get_square_score_eg(52, Color::White, Piece::Pawn), 94 + 147);
}

#[test]
fn phase_weights() {
    assert_eq!(piece_phase(Piece::Pawn), 0);
    assert_eq!(piece_phase(Piece::Knight), 1);
    assert_eq!(piece_phase(Piece::Bishop), 1);
    assert_eq!(piece_phase(Piece::Rook), 2);
    assert_eq!(piece_phase(Piece::Queen), 4);
    assert_eq!(piece_phase(Piece::King), 0);
}

#[test]
fn open_and_semi_open_files() {
    let pos = position("4k3/p7/8/8/8/8/1P6/R3K3 w - - 0 1");
    // a-file: a black pawn only
    assert!(!has_open_file(&pos, 0, Color::White));
    assert!(has_semi_open_file(&pos, 0, Color::White));
    assert!(!has_semi_open_file(&pos, 0, Color::Black));
    // c-file: no pawns
    assert!(has_open_file(&pos, 2, Color::White));
    // b-file: a white pawn
    assert!(!has_semi_open_file(&pos, 1, Color::White));
}

#[test]
fn doubled_pawns() {
    let pos = position("4k3/8/8/8/4P3/4P3/3P4/4K3 w - - 0 1");
    assert!(pawn_is_doubled(&pos, 20, Color::White));
    assert!(pawn_is_doubled(&pos, 28, Color::White));
    assert!(!pawn_is_doubled(&pos, 11, Color::White));
    assert!(!pawn_is_doubled(&pos, 20, Color::Black));
}

#[test]
fn rook_on_open_file() {
    // rook a1: 458 / 503 plus 25 / 10; (498 * 2 + 513 * 22) / 24 = 511
    let pos = position("4k3/8/8/8/8/8/8/R3K3 w - - 0 1");
    assert_eq!(pesto_evaluate_from_scratch(&pos), 511);
}

#[test]
fn rook_on_semi_open_file() {
    // rook a1 plus 12 / 6, black pawn a7: (438 * 2 + 402 * 22) / 24 = 405
    let pos = position("4k3/p7/8/8/8/8/8/R3K3 w - - 0 1");
    assert_eq!(pesto_evaluate_from_scratch(&pos), 405);
}

#[test]
fn rook_behind_own_pawn() {
    // no file bonus: (520 * 2 + 610 * 22) / 24 = 602
    let pos = position("4k3/8/8/8/8/8/P7/R3K3 w - - 0 1");
    assert_eq!(pesto_evaluate_from_scratch(&pos), 602);
}

#[test]
fn bishop_pair_bonus() {
    // (749 * 2 + 605 * 22) / 24 = 617
    let pos = position("4k3/8/8/8/8/8/8/2B1KB2 w - - 0 1");
    assert_eq!(pesto_evaluate_from_scratch(&pos), 617);
}

#[test]
fn doubled_pawns_are_penalised_each() {
    // pawns only: the endgame total alone, 141
    let pos = position("4k3/8/8/8/4P3/4P3/8/4K3 w - - 0 1");
    assert_eq!(pesto_evaluate_from_scratch(&pos), 141);
}
