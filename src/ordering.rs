//! Move ordering: material values, the pessimistic exchange estimate, the
//! move-order score (transposition hint, MVV-LVA, killer, history,
//! promotion) and a stable insertion sort by descending score.
use crate::board::{opposite, Color, Move, Piece, Position, PositionView};
use crate::tables;
use vstd::prelude::*;

verus! {

/// The number of entries of the history table: side, from square, to square.
pub const HISTORY_SIZE: usize = 8192;

pub open spec fn material_value(piece: Piece) -> int {
    match piece {
        Piece::Pawn => 100,
        Piece::Knight => 320,
        Piece::Bishop => 330,
        Piece::Rook => 500,
        Piece::Queen => 900,
        Piece::King => 20000,
    }
}

/// The small piece weights of MVV-LVA ordering; the king weighs nothing.
pub open spec fn mvv_lva_weight(piece: Piece) -> int {
    match piece {
        Piece::Pawn => 1,
        Piece::Knight => 3,
        Piece::Bishop => 3,
        Piece::Rook => 5,
        Piece::Queen => 9,
        Piece::King => 0,
    }
}

/// The piece standing on a square, if any.
pub open spec fn piece_at(v: PositionView, sq: int) -> Option<Piece> {
    match v.squares[sq] {
        Some((_, p)) => Some(p),
        None => None,
    }
}

/// A move is a capture when it lands on an opponent's piece, or when a pawn
/// moves diagonally to an empty square (en passant). A king moving onto its
/// own rook, which is how castling is written, is no capture.
pub open spec fn is_capture(v: PositionView, m: Move) -> bool {
    (v.squares[m.to as int] matches Some((c, _)) && c == opposite(v.side_to_move)) || (piece_at(
        v,
        m.from as int,
    ) == Some(Piece::Pawn) && v.squares[m.to as int] is None && m.from % 8 != m.to % 8)
}

/// The value of the captured piece less that of the capturing piece, as if
/// the capturing piece were lost right after.
pub open spec fn worst_case_exchange(v: PositionView, m: Move) -> int {
    let captured = match piece_at(v, m.to as int) {
        Some(p) => material_value(p),
        None => 0,
    };
    let attacker = match piece_at(v, m.from as int) {
        Some(p) => material_value(p),
        None => 0,
    };
    captured - attacker
}

pub open spec fn side_index(side: Color) -> int {
    match side {
        Color::White => 0,
        Color::Black => 1,
    }
}

/// The history-table entry of a move of `side`.
pub open spec fn history_index(side: Color, from: int, to: int) -> int {
    side_index(side) * 4096 + from * 64 + to
}

/// The MVV-LVA part of a capture's score: the victim weighs twenty times
/// the attacker.
pub open spec fn capture_order(v: PositionView, m: Move) -> int {
    let target = match piece_at(v, m.to as int) {
        Some(p) => mvv_lva_weight(p),
        None => 0,
    };
    let attacker = match piece_at(v, m.from as int) {
        Some(p) => mvv_lva_weight(p),
        None => 0,
    };
    tables::CAPTURE_BONUS + target * 20 - attacker
}

pub open spec fn promotion_adjustment(m: Move) -> int {
    match m.promotion {
        Some(Piece::Queen) => tables::CAPTURE_BONUS as int,
        Some(_) => -2 * tables::CAPTURE_BONUS,
        None => 0,
    }
}

/// The move-order score of a move: the transposition bonus, then the capture
/// score, else the killer bonus, else the history entry, then the promotion
/// adjustment.
pub open spec fn order_score(
    v: PositionView,
    m: Move,
    tt_move: Move,
    killer: Move,
    history: Seq<i32>,
) -> int {
    (if m == tt_move {
        tables::TT_BONUS as int
    } else {
        0
    }) + (if is_capture(v, m) {
        capture_order(v, m)
    } else if m == killer {
        tables::KILLER_BONUS as int
    } else {
        history[history_index(v.side_to_move, m.from as int, m.to as int)] as int
    }) + promotion_adjustment(m)
}

/// `p` maps each index below `n` to a distinct index below `n`.
pub open spec fn is_permutation(p: Seq<int>, n: int) -> bool {
    &&& p.len() == n
    &&& forall|i: int| 0 <= i < n ==> 0 <= #[trigger] p[i] < n
    &&& forall|i: int, j: int| 0 <= i < j < n ==> p[i] != p[j]
}

/// `(new_moves, new_scores)` is `(moves, scores)` reordered by `p`, by
/// descending score, with moves of equal score in their former order.
pub open spec fn is_stable_descending_order(
    moves: Seq<Move>,
    scores: Seq<i64>,
    new_moves: Seq<Move>,
    new_scores: Seq<i64>,
    p: Seq<int>,
) -> bool {
    &&& is_permutation(p, moves.len() as int)
    &&& new_moves.len() == moves.len()
    &&& new_scores.len() == moves.len()
    &&& forall|i: int|
        0 <= i < moves.len() ==> #[trigger] new_moves[i] == moves[p[i]] && new_scores[i]
            == scores[p[i]]
    &&& forall|i: int, j: int| 0 <= i < j < moves.len() ==> new_scores[i] >= new_scores[j]
    &&& forall|i: int, j: int|
        0 <= i < j < moves.len() && new_scores[i] == new_scores[j] ==> p[i] < p[j]
}

pub fn piece_value(piece: Piece) -> (r: i32)
    ensures
        r == material_value(piece),
{
    match piece {
        Piece::Pawn => 100,
        Piece::Knight => 320,
        Piece::Bishop => 330,
        Piece::Rook => 500,
        Piece::Queen => 900,
        Piece::King => 20000,
    }
}

fn mvv_lva_value(piece: Piece) -> (r: i64)
    ensures
        r == mvv_lva_weight(piece),
{
    match piece {
        Piece::Pawn => 1,
        Piece::Knight => 3,
        Piece::Bishop => 3,
        Piece::Rook => 5,
        Piece::Queen => 9,
        _ => 0,
    }
}

fn piece_on(board: &Position, sq: u8) -> (r: Option<Piece>)
    requires
        sq < 64,
    ensures
        r == piece_at(board@, sq as int),
{
    match board.occupant(sq) {
        Some((_, p)) => Some(p),
        None => None,
    }
}

pub fn move_is_capture(board: &Position, m: &Move) -> (r: bool)
    requires
        m.wf(),
    ensures
        r == is_capture(board@, *m),
{
    match board.occupant(m.to) {
        Some((c, _)) => c != board.side_to_move(),
        None => m.from % 8 != m.to % 8 && piece_on(board, m.from) == Some(Piece::Pawn),
    }
}

/// The pessimistic one-ply exchange estimate of a move.
pub fn see_worst_case(board: &Position, m: Move) -> (r: i32)
    requires
        m.wf(),
    ensures
        r == worst_case_exchange(board@, m),
        -20000 <= r <= 20000,
{
    let cap_value: i32 = match piece_on(board, m.to) {
        Some(p) => piece_value(p),
        None => 0,
    };
    let attacker_value: i32 = match piece_on(board, m.from) {
        Some(p) => piece_value(p),
        None => 0,
    };
    cap_value - attacker_value
}

pub fn history_slot(side: Color, from: u8, to: u8) -> (r: usize)
    requires
        from < 64,
        to < 64,
    ensures
        r == history_index(side, from as int, to as int),
        r < HISTORY_SIZE,
{
    let s: usize = match side {
        Color::White => 0,
        Color::Black => 1,
    };
    s * 4096 + (from as usize) * 64 + (to as usize)
}

/// The move-order score of one move.
pub fn score_move(board: &Position, m: Move, tt_move: Move, killer: Move, history: &Vec<i32>) -> (r: i64)
    requires
        m.wf(),
        history@.len() == HISTORY_SIZE,
    ensures
        r == order_score(board@, m, tt_move, killer, history@),
{
    let mut score: i64 = 0;
    if m == tt_move {
        score = score + tables::TT_BONUS;
    }
    if move_is_capture(board, &m) {
        let target_value: i64 = match piece_on(board, m.to) {
            Some(p) => mvv_lva_value(p),
            None => 0,
        };
        let attacker_value: i64 = match piece_on(board, m.from) {
            Some(p) => mvv_lva_value(p),
            None => 0,
        };
        score = score + target_value * 20 - attacker_value + tables::CAPTURE_BONUS;
    } else if m == killer {
        score = score + tables::KILLER_BONUS;
    } else {
        score = score + history[history_slot(board.side_to_move(), m.from, m.to)] as i64;
    }
    match m.promotion {
        Some(p) => {
            if p != Piece::Queen {
                score = score - tables::CAPTURE_BONUS * 2;
            } else {
                score = score + tables::CAPTURE_BONUS;
            }
        },
        None => {},
    }
    score
}

/// Sorts the moves by descending score with a stable insertion sort,
/// moving each score together with its move.
pub fn sort_moves(moves: &mut Vec<Move>, scores: &mut Vec<i64>)
    requires
        old(moves)@.len() == old(scores)@.len(),
    ensures
        exists|p: Seq<int>|
            is_stable_descending_order(old(moves)@, old(scores)@, final(moves)@, final(scores)@, p),
{
    let ghost m0 = moves@;
    let ghost s0 = scores@;
    let n: usize = moves.len();
    let ghost mut perm: Seq<int> = Seq::new(n as nat, |k: int| k);
    let mut i: usize = 1;
    while i < n
        invariant
            n == moves@.len(),
            n == scores@.len(),
            n == m0.len(),
            n == s0.len(),
            1 <= i,
            n > 0 ==> i <= n,
            perm.len() == n,
            forall|k: int| 0 <= k < n ==> 0 <= #[trigger] perm[k] < n,
            forall|k: int, l: int| 0 <= k < l < n ==> perm[k] != perm[l],
            forall|k: int| 0 <= k < n ==> #[trigger] moves@[k] == m0[perm[k]],
            forall|k: int| 0 <= k < n ==> #[trigger] scores@[k] == s0[perm[k]],
            forall|k: int| i <= k < n ==> #[trigger] perm[k] == k,
            forall|k: int| 0 <= k < i && k < n ==> #[trigger] perm[k] < i,
            forall|k: int, l: int| 0 <= k < l < i ==> scores@[k] >= scores@[l],
            forall|k: int, l: int|
                0 <= k < l < i && scores@[k] == scores@[l] ==> perm[k] < perm[l],
        decreases n - i,
    {
        let mut j: usize = i;
        while j > 0 && scores[j] > scores[j - 1]
            invariant
                n == moves@.len(),
                n == scores@.len(),
                n == m0.len(),
                n == s0.len(),
                j <= i < n,
                perm.len() == n,
                forall|k: int| 0 <= k < n ==> 0 <= #[trigger] perm[k] < n,
                forall|k: int, l: int| 0 <= k < l < n ==> perm[k] != perm[l],
                forall|k: int| 0 <= k < n ==> #[trigger] moves@[k] == m0[perm[k]],
                forall|k: int| 0 <= k < n ==> #[trigger] scores@[k] == s0[perm[k]],
                forall|k: int| i < k < n ==> #[trigger] perm[k] == k,
                perm[j as int] == i,
                forall|k: int| 0 <= k <= i && k != j ==> #[trigger] perm[k] < i,
                forall|k: int, l: int|
                    0 <= k < l <= i && k != j && l != j ==> scores@[k] >= scores@[l],
                forall|k: int, l: int|
                    0 <= k < l <= i && k != j && l != j && scores@[k] == scores@[l] ==> perm[k]
                        < perm[l],
                forall|l: int| j < l <= i ==> #[trigger] scores@[l] < scores@[j as int],
            decreases j,
        {
            let ghost pj = perm[j as int];
            let ghost pk = perm[j - 1];
            let ghost old_scores = scores@;
            let sj: i64 = scores[j];
            let sk: i64 = scores[j - 1];
            scores.set(j, sk);
            scores.set(j - 1, sj);
            let mj: Move = moves[j];
            let mk: Move = moves[j - 1];
            moves.set(j, mk);
            moves.set(j - 1, mj);
            proof {
                perm = perm.update(j as int, pk).update(j - 1, pj);
                assert forall|k: int, l: int|
                    0 <= k < l <= i && k != j - 1 && l != j - 1 implies scores@[k] >= scores@[l] by {
                    let ok = if k == j { j - 1 } else { k };
                    let ol = if l == j { j - 1 } else { l };
                    assert(scores@[k] == old_scores[ok]);
                    assert(scores@[l] == old_scores[ol]);
                }
                assert forall|k: int, l: int|
                    0 <= k < l <= i && k != j - 1 && l != j - 1 && scores@[k] == scores@[l] implies perm[k]
                        < perm[l] by {
                    let ok = if k == j { j - 1 } else { k };
                    let ol = if l == j { j - 1 } else { l };
                    assert(scores@[k] == old_scores[ok]);
                    assert(scores@[l] == old_scores[ol]);
                }
            }
            j = j - 1;
        }
        proof {
            assert forall|k: int, l: int| 0 <= k < l < i + 1 implies scores@[k] >= scores@[l] by {
                if k != j && l != j {
                } else if k == j {
                    assert(scores@[l] < scores@[j as int]);
                } else {
                    if k < j - 1 {
                        assert(scores@[k] >= scores@[j - 1]);
                    }
                }
            }
            assert forall|k: int, l: int|
                0 <= k < l < i + 1 && scores@[k] == scores@[l] implies perm[k] < perm[l] by {
                if k != j && l != j {
                } else if k == j {
                    assert(scores@[l] < scores@[j as int]);
                } else {
                    assert(perm[k] < i);
                }
            }
        }
        i = i + 1;
    }
    proof {
        assert(is_stable_descending_order(m0, s0, moves@, scores@, perm));
    }
}

/// Once moves scored by `order_score` are sorted, a pawn capturing a queen
/// stands before a pawn capturing a pawn, wherever either stood in the list
/// before: the victim weighs twenty times the attacker. This holds unless the
/// pawn-takes-pawn move alone is the transposition move, the queen capture
/// carries an under-promotion, or the other move a queen promotion.
pub proof fn lemma_queen_capture_ordered_first(
    v: PositionView,
    moves: Seq<Move>,
    scores: Seq<i64>,
    new_moves: Seq<Move>,
    new_scores: Seq<i64>,
    p: Seq<int>,
    tt_move: Move,
    killer: Move,
    history: Seq<i32>,
    a: int,
    b: int,
    ia: int,
    ib: int,
)
    requires
        scores.len() == moves.len(),
        forall|k: int|
            0 <= k < moves.len() ==> #[trigger] scores[k] == order_score(
                v,
                moves[k],
                tt_move,
                killer,
                history,
            ),
        is_stable_descending_order(moves, scores, new_moves, new_scores, p),
        0 <= a < moves.len(),
        0 <= b < moves.len(),
        v.squares[moves[a].from as int] == Some((v.side_to_move, Piece::Pawn)),
        v.squares[moves[a].to as int] == Some((opposite(v.side_to_move), Piece::Queen)),
        v.squares[moves[b].from as int] == Some((v.side_to_move, Piece::Pawn)),
        v.squares[moves[b].to as int] == Some((opposite(v.side_to_move), Piece::Pawn)),
        moves[b] == tt_move ==> moves[a] == tt_move,
        moves[a].promotion is None || moves[a].promotion == Some(Piece::Queen),
        moves[b].promotion != Some(Piece::Queen),
        0 <= ia < moves.len(),
        0 <= ib < moves.len(),
        p[ia] == a,
        p[ib] == b,
    ensures
        ia < ib,
{
    assert(scores[a] == order_score(v, moves[a], tt_move, killer, history));
    assert(scores[b] == order_score(v, moves[b], tt_move, killer, history));
    assert(is_capture(v, moves[a]));
    assert(is_capture(v, moves[b]));
    assert(capture_order(v, moves[a]) == tables::CAPTURE_BONUS + 179);
    assert(capture_order(v, moves[b]) == tables::CAPTURE_BONUS + 19);
    assert(scores[a] > scores[b]);
    assert(new_moves[ia] == moves[p[ia]]);
    assert(new_moves[ib] == moves[p[ib]]);
    assert(new_scores[ia] == scores[a]);
    assert(new_scores[ib] == scores[b]);
    if ib < ia {
        assert(new_scores[ib] >= new_scores[ia]);
    }
}

} // verus!
