use cozy_chess::Board;
use slinky_chess::board::{move_text, Move, Position};
use slinky_chess::evaluation::pesto_evaluate_from_scratch;
use slinky_chess::search::{
    aspiration_update, classify_bound, find_legal, tt_decision, AlphaBetaSearcher, Aspiration,
    TtVerdict, MIN_VAL,
};
use slinky_chess::tt::{NodeType, TTEntry, TranspositionTable};
use std::time::Instant;

fn position(fen: &str) -> Position {
    Position::from_board(Board::from_fen(fen, false).unwrap())
}

fn legal_texts(pos: &Position) -> Vec<String> {
    pos.legal_moves().into_iter().map(move_text).collect()
}

#[test]
fn table_store_then_probe_returns_the_entry() {
    let mut table = TranspositionTable::new();
    let entry = TTEntry {
        hash: 0x1234_5678_9abc_def0,
        depth: 7,
        score: -321,
        best_move: Move { from: 12, to: 28, promotion: None },
        node_type: NodeType::LowerBound,
    };
    table.store(entry);
    assert_eq!(table.probe(entry.hash), entry);
}

#[test]
fn table_slot_is_shared_by_hashes_equal_modulo_capacity() {
    let mut table = TranspositionTable::new();
    let first = TTEntry {
        hash: 5,
        depth: 1,
        score: 10,
        best_move: Move::null(),
        node_type: NodeType::Exact,
    };
    let second = TTEntry { hash: 5 + (1u64 << 22), depth: 2, score: 20, ..first };
    table.store(first);
    table.store(second);
    let found = table.probe(5);
    assert_eq!(found, second);
    assert_ne!(found.hash, 5);
}

#[test]
fn new_table_holds_empty_entries() {
    let table = TranspositionTable::new();
    assert_eq!(table.probe(99), TTEntry::empty());
}

#[test]
fn twice_seen_position_is_a_draw_below_the_root() {
    // white is a queen and a rook up, yet the position repeats
    let pos = position("4k3/8/8/8/8/8/8/R2QK3 w - - 0 1");
    let mut searcher = AlphaBetaSearcher::new();
    searcher.add_to_threefold_repetition(pos.hash());
    searcher.add_to_threefold_repetition(pos.hash());
    let start = Instant::now();
    let score = searcher.pvs(&pos, 3, MIN_VAL - 1, -MIN_VAL + 1, 1, &start, 10_000_000_000, true);
    assert_eq!(score, 0);
}

#[test]
fn once_seen_position_is_searched() {
    let pos = position("4k3/8/8/8/8/8/8/R2QK3 w - - 0 1");
    let mut searcher = AlphaBetaSearcher::new();
    searcher.add_to_threefold_repetition(pos.hash());
    let start = Instant::now();
    let score = searcher.pvs(&pos, 1, MIN_VAL - 1, -MIN_VAL + 1, 1, &start, 10_000_000_000, true);
    assert!(score > 1000);
}

#[test]
fn cleared_repetition_stack_forgets_the_game() {
    let pos = position("4k3/8/8/8/8/8/8/R2QK3 w - - 0 1");
    let mut searcher = AlphaBetaSearcher::new();
    searcher.add_to_threefold_repetition(pos.hash());
    searcher.add_to_threefold_repetition(pos.hash());
    assert_eq!(searcher.repetitions(pos.hash()), 2);
    searcher.clear_threefold_repetition();
    assert_eq!(searcher.repetitions(pos.hash()), 0);
}

#[test]
fn checkmated_side_scores_the_sentinel_plus_ply() {
    // black has been mated on the back rank
    let pos = position("R5k1/5ppp/8/8/8/8/8/6K1 b - - 1 1");
    let mut searcher = AlphaBetaSearcher::new();
    let start = Instant::now();
    let score = searcher.pvs(&pos, 2, MIN_VAL - 1, -MIN_VAL + 1, 3, &start, 10_000_000_000, true);
    assert_eq!(score, MIN_VAL + 3);
}

#[test]
fn stalemate_scores_zero() {
    let pos = position("7k/5Q2/6K1/8/8/8/8/8 b - - 0 1");
    let mut searcher = AlphaBetaSearcher::new();
    let start = Instant::now();
    let score = searcher.pvs(&pos, 2, MIN_VAL - 1, -MIN_VAL + 1, 1, &start, 10_000_000_000, true);
    assert_eq!(score, 0);
}

#[test]
fn back_rank_mate_is_found() {
    let board = Board::from_fen("6k1/5ppp/8/8/8/8/8/R5K1 w - - 0 1", false).unwrap();
    let mut searcher = AlphaBetaSearcher::new();
    let best = searcher.get_best_move(&board, 2000).unwrap();
    assert_eq!(best, "a1a8");
    // one ply from the mate: within one of the sentinel's magnitude
    assert_eq!(searcher.root_score(), -MIN_VAL - 1);
}

#[test]
fn quiescence_stands_pat_at_or_above_beta() {
    let pos = position("4k3/8/8/8/8/8/8/R2QK3 w - - 0 1");
    let mut searcher = AlphaBetaSearcher::new();
    let start = Instant::now();
    let score = searcher.quiesce(&pos, -100, 50, 1, &start, 10_000_000_000);
    assert_eq!(score, 50);
}

#[test]
fn start_position_answer_is_a_legal_first_move() {
    let board = Board::default();
    let pos = Position::from_board(board.clone());
    let mut searcher = AlphaBetaSearcher::new();
    let best = searcher.get_best_move(&board, 1000).unwrap();
    assert_ne!(best, "a1a1");
    let legal = legal_texts(&pos);
    assert_eq!(legal.len(), 20);
    assert!(legal.contains(&best));
}

#[test]
fn hanging_queen_is_captured() {
    // the white knight on e3 attacks the undefended black queen on d5
    let board = Board::from_fen("4k3/8/8/3q4/8/4N3/8/4K3 w - - 0 1", false).unwrap();
    let mut searcher = AlphaBetaSearcher::new();
    let best = searcher.get_best_move(&board, 2000).unwrap();
    assert_eq!(best, "e3d5");
    assert!(searcher.root_score() > 200);
}

#[test]
fn attacked_queen_is_saved() {
    // the black knight on d4 attacks the undefended white queen on c2
    let board = Board::from_fen("4k3/8/8/8/3n4/8/2Q5/K7 w - - 0 1", false).unwrap();
    let mut searcher = AlphaBetaSearcher::new();
    let best = searcher.get_best_move(&board, 2000).unwrap();
    let mut after = board.clone();
    after.play(best.parse().unwrap());
    // the queen is still on the board and the score favours white
    assert!(after.pieces(cozy_chess::Piece::Queen).len() == 1);
    assert!(searcher.root_score() > 200);
}

#[test]
fn zero_budget_reports_the_unfilled_root_move() {
    let board = Board::default();
    let mut searcher = AlphaBetaSearcher::new();
    let err = searcher.get_best_move(&board, 0).unwrap_err();
    assert_eq!(err.chosen, Move::null());
    assert_eq!(err.depth_reached, 0);
}

#[test]
fn failed_search_doubles_the_window_at_the_same_depth() {
    let state = Aspiration { depth: 3, window: 15, alpha: 0, beta: 30 };
    let next = aspiration_update(state, 40);
    assert_eq!(next, Aspiration { depth: 3, window: 30, alpha: 10, beta: 70 });
    let again = aspiration_update(next, 5);
    assert_eq!(again, Aspiration { depth: 3, window: 60, alpha: -55, beta: 65 });
}

#[test]
fn search_inside_the_window_advances_the_depth() {
    let state = Aspiration { depth: 3, window: 60, alpha: -55, beta: 65 };
    let next = aspiration_update(state, 20);
    assert_eq!(next, Aspiration { depth: 4, window: 15, alpha: 5, beta: 35 });
}

#[test]
fn widest_window_holds_every_score() {
    let state = Aspiration { depth: 2, window: 1 << 31, alpha: -10, beta: 10 };
    let next = aspiration_update(state, -MIN_VAL);
    assert_eq!(next.depth, 2);
    assert_eq!(next.window, 1 << 32);
    assert_eq!(next.alpha, MIN_VAL - 1);
    assert_eq!(next.beta, -MIN_VAL + 1);
}

#[test]
fn legal_check_finds_only_listed_moves() {
    let listed = vec![Move { from: 12, to: 28, promotion: None }];
    assert_eq!(find_legal(listed[0], &listed), Some(listed[0]));
    assert_eq!(find_legal(Move::null(), &listed), None);
}

fn entry(hash: u64, depth: i32, score: i32, node_type: NodeType) -> TTEntry {
    TTEntry { hash, depth, score, best_move: Move::null(), node_type }
}

#[test]
fn probe_decisions() {
    let exact = entry(7, 3, 42, NodeType::Exact);
    assert_eq!(tt_decision(exact, 7, 3, 10, 11, false), TtVerdict::Cutoff(42));
    // the root, a wide window, a shallower entry or another hash: no use
    assert_eq!(tt_decision(exact, 7, 3, 10, 11, true), TtVerdict::Window(10, 11));
    assert_eq!(tt_decision(exact, 7, 3, 10, 12, false), TtVerdict::Window(10, 12));
    assert_eq!(tt_decision(exact, 7, 4, 10, 11, false), TtVerdict::Window(10, 11));
    assert_eq!(tt_decision(exact, 8, 3, 10, 11, false), TtVerdict::Window(10, 11));
    let lower = entry(7, 3, 42, NodeType::LowerBound);
    assert_eq!(tt_decision(lower, 7, 3, 41, 42, false), TtVerdict::Cutoff(42));
    assert_eq!(tt_decision(lower, 7, 3, 50, 51, false), TtVerdict::Window(50, 51));
    let upper = entry(7, 3, 42, NodeType::UpperBound);
    assert_eq!(tt_decision(upper, 7, 3, 42, 43, false), TtVerdict::Cutoff(42));
    assert_eq!(tt_decision(upper, 7, 3, 20, 21, false), TtVerdict::Window(20, 21));
}

#[test]
fn bounds_of_best_scores() {
    assert_eq!(classify_bound(10, 10, 20), NodeType::UpperBound);
    assert_eq!(classify_bound(20, 10, 20), NodeType::LowerBound);
    assert_eq!(classify_bound(15, 10, 20), NodeType::Exact);
}

#[test]
fn stored_result_is_cached_with_its_bound() {
    let mut searcher = AlphaBetaSearcher::new();
    let m = Move { from: 12, to: 28, promotion: None };
    searcher.store_result(99, 4, 15, m, 10, 20);
    assert_eq!(
        searcher.tt_entry(99),
        TTEntry { hash: 99, depth: 4, score: 15, best_move: m, node_type: NodeType::Exact }
    );
    // an aborted result is not cached
    searcher.store_result(99, 6, MIN_VAL, Move::null(), 10, 20);
    assert_eq!(searcher.tt_entry(99).depth, 4);
}

#[test]
fn search_stores_the_node_best_move() {
    let pos = position("4k3/8/8/3q4/8/4N3/8/4K3 w - - 0 1");
    let mut searcher = AlphaBetaSearcher::new();
    let start = Instant::now();
    let score = searcher.pvs(&pos, 2, MIN_VAL - 1, -MIN_VAL + 1, 1, &start, 10_000_000_000, true);
    let stored = searcher.tt_entry(pos.hash());
    assert_eq!(stored.hash, pos.hash());
    assert_eq!(stored.score, score);
    assert_eq!(stored.best_move, Move { from: 20, to: 35, promotion: None });
    assert_eq!(stored.node_type, NodeType::Exact);
    assert_eq!(searcher.root_best_move(), Move::null());
}

#[test]
fn cutoff_sets_killer_and_history() {
    let pos = position("4k3/8/8/8/8/8/8/R3K3 w - - 0 1");
    let mut searcher = AlphaBetaSearcher::new();
    let first = Move { from: 0, to: 8, promotion: None };
    let cut = Move { from: 0, to: 16, promotion: None };
    let moves = vec![first, cut];
    searcher.record_cutoff(&pos, &moves, 1, false, 3, 5);
    // at ply 5 the cutting move is the killer; elsewhere history shows
    let at_killer_ply = searcher.score_moves(&pos, &moves, Move::null(), 5);
    assert_eq!(at_killer_ply, vec![-1, 65536]);
    let elsewhere = searcher.score_moves(&pos, &moves, Move::null(), 4);
    assert_eq!(elsewhere, vec![-1, 9]);
}

#[test]
fn capture_cutoff_leaves_history() {
    let pos = position("4k3/8/8/8/8/8/p7/R3K3 w - - 0 1");
    let mut searcher = AlphaBetaSearcher::new();
    let quiet = Move { from: 4, to: 3, promotion: None };
    let capture = Move { from: 0, to: 8, promotion: None };
    let moves = vec![quiet, capture];
    searcher.record_cutoff(&pos, &moves, 1, false, 3, 5);
    let scores = searcher.score_moves(&pos, &vec![quiet], Move::null(), 4);
    assert_eq!(scores, vec![0]);
}

#[test]
fn no_captures_left_returns_alpha() {
    let pos = position("4k3/8/8/8/8/8/8/R3K3 w - - 0 1");
    let mut searcher = AlphaBetaSearcher::new();
    let start = Instant::now();
    let stand_pat = pesto_evaluate_from_scratch(&pos);
    let r = searcher.quiesce_moves(&pos, &Vec::new(), stand_pat, stand_pat + 5, stand_pat + 50, 1, &start, 10_000_000_000);
    assert_eq!(r, stand_pat + 5);
}

#[test]
fn capture_clearing_beta_even_if_lost_prunes_the_node() {
    // d4 takes the queen on c5: worst case 900 - 100
    let pos = position("4k3/8/8/2q5/3P4/8/8/4K3 w - - 0 1");
    let mut searcher = AlphaBetaSearcher::new();
    let start = Instant::now();
    let stand_pat = pesto_evaluate_from_scratch(&pos);
    let moves = vec![Move { from: 27, to: 34, promotion: None }];
    let r = searcher.quiesce_moves(&pos, &moves, stand_pat, stand_pat, stand_pat + 100, 1, &start, 10_000_000_000);
    assert_eq!(r, stand_pat + 100);
    assert_eq!(searcher.nodes(), 0);
}

#[test]
fn expired_clock_aborts() {
    let pos = Position::from_board(Board::default());
    let mut searcher = AlphaBetaSearcher::new();
    let start = Instant::now();
    let r = searcher.pvs_after_clock(&pos, 3, 0, MIN_VAL - 1, -MIN_VAL + 1, 1, &start, 0, true, true);
    assert_eq!(r, MIN_VAL);
    let stand_pat = pesto_evaluate_from_scratch(&pos);
    let q = searcher.quiesce_after_clock(&pos, stand_pat, -100, 100, 1, &start, 0, true);
    assert_eq!(q, MIN_VAL);
    assert_eq!(searcher.nodes(), 0);
}

#[test]
fn nodes_are_counted() {
    let pos = Position::from_board(Board::default());
    let mut searcher = AlphaBetaSearcher::new();
    assert_eq!(searcher.nodes(), 0);
    let start = Instant::now();
    searcher.pvs(&pos, 1, MIN_VAL - 1, -MIN_VAL + 1, 0, &start, 10_000_000_000, true);
    assert!(searcher.nodes() > 20);
}

#[test]
fn budget_under_forty_ms_starts_no_search() {
    let board = Board::default();
    let mut searcher = AlphaBetaSearcher::new();
    let err = searcher.get_best_move(&board, 39).unwrap_err();
    assert_eq!(err.chosen, Move::null());
}
