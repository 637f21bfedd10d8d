//! The static evaluator: tapered piece-square tables with a bishop-pair
//! bonus, rook file bonuses, a doubled-pawn penalty and a tempo bonus.
//!
//! Scores are from the side to move's point of view.
use crate::board::{opposite, other_side, Color, Piece, Position, PositionView};
use crate::tables;
use vstd::prelude::*;

verus! {

/// The largest magnitude of a static evaluation.
pub const EVAL_LIMIT: i32 = 200000;

/// The square as seen from `color`'s side of the board: the rank is
/// mirrored for black.
pub open spec fn square_relative_to(sq: int, color: Color) -> int {
    match color {
        Color::White => sq,
        Color::Black => (7 - sq / 8) * 8 + sq % 8,
    }
}

/// The table index of a piece of `side` on `sq`: the square as the opposite
/// side sees it, since the tables list the eighth rank first.
pub open spec fn relative_square(sq: int, side: Color) -> int {
    square_relative_to(sq, opposite(side))
}

pub open spec fn square_score_mg(sq: int, side: Color, piece: Piece) -> int {
    let i = relative_square(sq, side);
    match piece {
        Piece::Pawn => tables::MG_PAWN_TABLE@[i] + tables::MG_PAWN_MATERIAL,
        Piece::Knight => tables::MG_KNIGHT_TABLE@[i] + tables::MG_KNIGHT_MATERIAL,
        Piece::Bishop => tables::MG_BISHOP_TABLE@[i] + tables::MG_BISHOP_MATERIAL,
        Piece::Rook => tables::MG_ROOK_TABLE@[i] + tables::MG_ROOK_MATERIAL,
        Piece::Queen => tables::MG_QUEEN_TABLE@[i] + tables::MG_QUEEN_MATERIAL,
        Piece::King => tables::MG_KING_TABLE@[i] + tables::MG_KING_MATERIAL,
    }
}

pub open spec fn square_score_eg(sq: int, side: Color, piece: Piece) -> int {
    let i = relative_square(sq, side);
    match piece {
        Piece::Pawn => tables::EG_PAWN_TABLE@[i] + tables::EG_PAWN_MATERIAL,
        Piece::Knight => tables::EG_KNIGHT_TABLE@[i] + tables::EG_KNIGHT_MATERIAL,
        Piece::Bishop => tables::EG_BISHOP_TABLE@[i] + tables::EG_BISHOP_MATERIAL,
        Piece::Rook => tables::EG_ROOK_TABLE@[i] + tables::EG_ROOK_MATERIAL,
        Piece::Queen => tables::EG_QUEEN_TABLE@[i] + tables::EG_QUEEN_MATERIAL,
        Piece::King => tables::EG_KING_TABLE@[i] + tables::EG_KING_MATERIAL,
    }
}

/// The weight of a piece in the game phase.
pub open spec fn phase_of(piece: Piece) -> int {
    match piece {
        Piece::Pawn => 0,
        Piece::Knight => 1,
        Piece::Bishop => 1,
        Piece::Rook => 2,
        Piece::Queen => 4,
        Piece::King => 0,
    }
}

/// The number of `side`'s pawns on `file` in the ranks below `rank`.
pub open spec fn pawns_on_file_below(
    squares: Seq<Option<(Color, Piece)>>,
    file: int,
    side: Color,
    rank: int,
) -> int
    decreases rank,
{
    if rank <= 0 {
        0
    } else {
        pawns_on_file_below(squares, file, side, rank - 1) + if squares[(rank - 1) * 8 + file]
            == Some((side, Piece::Pawn)) {
            1int
        } else {
            0int
        }
    }
}

pub open spec fn pawns_on_file(squares: Seq<Option<(Color, Piece)>>, file: int, side: Color) -> int {
    pawns_on_file_below(squares, file, side, 8)
}

/// No pawn of either side stands on the square's file.
pub open spec fn is_open_file(squares: Seq<Option<(Color, Piece)>>, sq: int) -> bool {
    pawns_on_file(squares, sq % 8, Color::White) == 0 && pawns_on_file(squares, sq % 8, Color::Black)
        == 0
}

/// No pawn of `side` stands on the square's file.
pub open spec fn is_semi_open_file(squares: Seq<Option<(Color, Piece)>>, sq: int, side: Color) -> bool {
    pawns_on_file(squares, sq % 8, side) == 0
}

/// Two or more pawns of `side` stand on the square's file.
pub open spec fn is_doubled_file(squares: Seq<Option<(Color, Piece)>>, sq: int, side: Color) -> bool {
    pawns_on_file(squares, sq % 8, side) > 1
}

/// The rook-file and doubled-pawn terms of a piece, midgame and endgame.
pub open spec fn structure_mg(squares: Seq<Option<(Color, Piece)>>, sq: int, side: Color, piece: Piece) -> int {
    if piece == Piece::Rook {
        if is_open_file(squares, sq) {
            tables::ROOK_OPEN_FILE_MG as int
        } else if is_semi_open_file(squares, sq, side) {
            tables::ROOK_SEMI_OPEN_FILE_MG as int
        } else {
            0
        }
    } else if piece == Piece::Pawn && is_doubled_file(squares, sq, side) {
        tables::DOUBLED_PAWNS_MG as int
    } else {
        0
    }
}

pub open spec fn structure_eg(squares: Seq<Option<(Color, Piece)>>, sq: int, side: Color, piece: Piece) -> int {
    if piece == Piece::Rook {
        if is_open_file(squares, sq) {
            tables::ROOK_OPEN_FILE_EG as int
        } else if is_semi_open_file(squares, sq, side) {
            tables::ROOK_SEMI_OPEN_FILE_EG as int
        } else {
            0
        }
    } else if piece == Piece::Pawn && is_doubled_file(squares, sq, side) {
        tables::DOUBLED_PAWNS_EG as int
    } else {
        0
    }
}

/// What the piece on `sq` adds to `side`'s midgame sum (0 if it is not
/// `side`'s).
pub open spec fn square_term_mg(squares: Seq<Option<(Color, Piece)>>, sq: int, side: Color) -> int {
    match squares[sq] {
        Some((owner, piece)) => if owner == side {
            square_score_mg(sq, side, piece) + structure_mg(squares, sq, side, piece)
        } else {
            0
        },
        None => 0,
    }
}

pub open spec fn square_term_eg(squares: Seq<Option<(Color, Piece)>>, sq: int, side: Color) -> int {
    match squares[sq] {
        Some((owner, piece)) => if owner == side {
            square_score_eg(sq, side, piece) + structure_eg(squares, sq, side, piece)
        } else {
            0
        },
        None => 0,
    }
}

/// `side`'s midgame sum over the squares below `n`.
pub open spec fn sum_mg(squares: Seq<Option<(Color, Piece)>>, side: Color, n: int) -> int
    decreases n,
{
    if n <= 0 {
        0
    } else {
        sum_mg(squares, side, n - 1) + square_term_mg(squares, n - 1, side)
    }
}

pub open spec fn sum_eg(squares: Seq<Option<(Color, Piece)>>, side: Color, n: int) -> int
    decreases n,
{
    if n <= 0 {
        0
    } else {
        sum_eg(squares, side, n - 1) + square_term_eg(squares, n - 1, side)
    }
}

/// The phase weight of all pieces on the squares below `n`.
pub open spec fn phase_sum(squares: Seq<Option<(Color, Piece)>>, n: int) -> int
    decreases n,
{
    if n <= 0 {
        0
    } else {
        phase_sum(squares, n - 1) + match squares[n - 1] {
            Some((_, piece)) => phase_of(piece),
            None => 0,
        }
    }
}

/// The number of `side`'s bishops on the squares below `n`.
pub open spec fn bishop_count(squares: Seq<Option<(Color, Piece)>>, side: Color, n: int) -> int
    decreases n,
{
    if n <= 0 {
        0
    } else {
        bishop_count(squares, side, n - 1) + if squares[n - 1] == Some((side, Piece::Bishop)) {
            1int
        } else {
            0int
        }
    }
}

/// Division that truncates toward zero.
pub open spec fn trunc_div(x: int, d: int) -> int {
    if x >= 0 {
        x / d
    } else {
        -((-x) / d)
    }
}

pub open spec fn min24(x: int) -> int {
    if x < 24 {
        x
    } else {
        24
    }
}

/// A side's midgame total: its pieces, its bishop pair, and the tempo bonus
/// when it is to move.
pub open spec fn side_mg(v: PositionView, side: Color) -> int {
    sum_mg(v.squares, side, 64) + (if bishop_count(v.squares, side, 64) > 1 {
        tables::BISHOP_PAIR_MG as int
    } else {
        0
    }) + (if v.side_to_move == side {
        tables::TEMPO_BONUS as int
    } else {
        0
    })
}

pub open spec fn side_eg(v: PositionView, side: Color) -> int {
    sum_eg(v.squares, side, 64) + (if bishop_count(v.squares, side, 64) > 1 {
        tables::BISHOP_PAIR_EG as int
    } else {
        0
    })
}

/// The static evaluation of a position, from the side to move's view: the
/// white-minus-black midgame and endgame totals, blended by the game phase
/// (capped at 24) and divided by 24 with truncation toward zero.
pub open spec fn evaluation(v: PositionView) -> int {
    let mg_phase = min24(phase_sum(v.squares, 64));
    let mg = side_mg(v, Color::White) - side_mg(v, Color::Black);
    let eg = side_eg(v, Color::White) - side_eg(v, Color::Black);
    let score = trunc_div(mg * mg_phase + eg * (24 - mg_phase), 24);
    if v.side_to_move == Color::Black {
        -score
    } else {
        score
    }
}

fn relative_to(square: u8, color: Color) -> (r: usize)
    requires
        square < 64,
    ensures
        r == square_relative_to(square as int, color),
        r < 64,
{
    match color {
        Color::White => square as usize,
        Color::Black => ((7 - square / 8) * 8 + square % 8) as usize,
    }
}

/// The midgame table value plus material of a piece of `side` on `square`.
pub fn get_square_score_mg(square: u8, side: Color, piece: Piece) -> (r: i32)
    requires
        square < 64,
    ensures
        r == square_score_mg(square as int, side, piece),
        -200 <= r <= 1300,
{
    proof {
        tables::lemma_tables_bounded();
    }
    let rel_square = relative_to(square, other_side(side));
    match piece {
        Piece::Pawn => tables::MG_PAWN_TABLE[rel_square] + tables::MG_PAWN_MATERIAL,
        Piece::Knight => tables::MG_KNIGHT_TABLE[rel_square] + tables::MG_KNIGHT_MATERIAL,
        Piece::Bishop => tables::MG_BISHOP_TABLE[rel_square] + tables::MG_BISHOP_MATERIAL,
        Piece::Rook => tables::MG_ROOK_TABLE[rel_square] + tables::MG_ROOK_MATERIAL,
        Piece::Queen => tables::MG_QUEEN_TABLE[rel_square] + tables::MG_QUEEN_MATERIAL,
        Piece::King => tables::MG_KING_TABLE[rel_square] + tables::MG_KING_MATERIAL,
    }
}

/// The endgame table value plus material of a piece of `side` on `square`.
pub fn get_square_score_eg(square: u8, side: Color, piece: Piece) -> (r: i32)
    requires
        square < 64,
    ensures
        r == square_score_eg(square as int, side, piece),
        -200 <= r <= 1300,
{
    proof {
        tables::lemma_tables_bounded();
    }
    let rel_square = relative_to(square, other_side(side));
    match piece {
        Piece::Pawn => tables::EG_PAWN_TABLE[rel_square] + tables::EG_PAWN_MATERIAL,
        Piece::Knight => tables::EG_KNIGHT_TABLE[rel_square] + tables::EG_KNIGHT_MATERIAL,
        Piece::Bishop => tables::EG_BISHOP_TABLE[rel_square] + tables::EG_BISHOP_MATERIAL,
        Piece::Rook => tables::EG_ROOK_TABLE[rel_square] + tables::EG_ROOK_MATERIAL,
        Piece::Queen => tables::EG_QUEEN_TABLE[rel_square] + tables::EG_QUEEN_MATERIAL,
        Piece::King => tables::EG_KING_TABLE[rel_square] + tables::EG_KING_MATERIAL,
    }
}

fn count_pawns_on_file(board: &Position, file: u8, side: Color) -> (r: u8)
    requires
        file < 8,
    ensures
        r == pawns_on_file(board@.squares, file as int, side),
        r <= 8,
{
    let mut count: u8 = 0;
    let mut rank: u8 = 0;
    while rank < 8
        invariant
            rank <= 8,
            file < 8,
            count == pawns_on_file_below(board@.squares, file as int, side, rank as int),
            count <= rank,
        decreases 8 - rank,
    {
        let occupant = board.occupant(rank * 8 + file);
        let is_pawn: bool = match occupant {
            Some((owner, piece)) => owner == side && piece == Piece::Pawn,
            None => false,
        };
        if is_pawn {
            count = count + 1;
        }
        rank = rank + 1;
    }
    count
}

/// Whether no pawn of either side stands on the square's file.
pub fn has_open_file(board: &Position, square: u8, side: Color) -> (r: bool)
    requires
        square < 64,
    ensures
        r == is_open_file(board@.squares, square as int),
{
    let file: u8 = square % 8;
    let other: Color = other_side(side);
    let enemy_pawns = count_pawns_on_file(board, file, other);
    let friendly_pawns = count_pawns_on_file(board, file, side);
    friendly_pawns == 0 && enemy_pawns == 0
}

/// Whether no pawn of `side` stands on the square's file.
pub fn has_semi_open_file(board: &Position, square: u8, side: Color) -> (r: bool)
    requires
        square < 64,
    ensures
        r == is_semi_open_file(board@.squares, square as int, side),
{
    count_pawns_on_file(board, square % 8, side) == 0
}

/// Whether two or more pawns of `side` stand on the square's file.
pub fn pawn_is_doubled(board: &Position, square: u8, side: Color) -> (r: bool)
    requires
        square < 64,
    ensures
        r == is_doubled_file(board@.squares, square as int, side),
{
    count_pawns_on_file(board, square % 8, side) > 1
}

/// The weight of a piece in the game phase: minor pieces 1, rooks 2,
/// queens 4, pawns and kings 0.
pub fn piece_phase(piece: Piece) -> (r: i32)
    ensures
        r == phase_of(piece),
{
    match piece {
        Piece::Pawn => 0,
        Piece::Knight => 1,
        Piece::Bishop => 1,
        Piece::Rook => 2,
        Piece::Queen => 4,
        _ => 0,
    }
}

/// The midgame and endgame terms of the piece of `side` on `square`.
fn piece_terms(board: &Position, square: u8, side: Color, piece: Piece) -> (r: (i32, i32))
    requires
        square < 64,
        board@.squares[square as int] == Some((side, piece)),
    ensures
        r.0 == square_term_mg(board@.squares, square as int, side),
        r.1 == square_term_eg(board@.squares, square as int, side),
        -220 <= r.0 <= 1325,
        -220 <= r.1 <= 1325,
{
    let mut mg: i32 = get_square_score_mg(square, side, piece);
    let mut eg: i32 = get_square_score_eg(square, side, piece);
    if piece == Piece::Rook {
        if has_open_file(board, square, side) {
            mg = mg + tables::ROOK_OPEN_FILE_MG;
            eg = eg + tables::ROOK_OPEN_FILE_EG;
        } else if has_semi_open_file(board, square, side) {
            mg = mg + tables::ROOK_SEMI_OPEN_FILE_MG;
            eg = eg + tables::ROOK_SEMI_OPEN_FILE_EG;
        }
    } else if piece == Piece::Pawn {
        if pawn_is_doubled(board, square, side) {
            mg = mg + tables::DOUBLED_PAWNS_MG;
            eg = eg + tables::DOUBLED_PAWNS_EG;
        }
    }
    (mg, eg)
}

/// The static evaluation of a position from the side to move's view.
pub fn pesto_evaluate_from_scratch(board: &Position) -> (r: i32)
    ensures
        r == evaluation(board@),
        -EVAL_LIMIT <= r <= EVAL_LIMIT,
{
    let ghost squares = board@.squares;
    let mut white_mg: i32 = 0;
    let mut black_mg: i32 = 0;
    let mut white_eg: i32 = 0;
    let mut black_eg: i32 = 0;
    let mut white_bishops: i32 = 0;
    let mut black_bishops: i32 = 0;
    let mut mg_phase: i32 = 0;
    let mut square: u8 = 0;
    while square < 64
        invariant
            square <= 64,
            squares == board@.squares,
            white_mg == sum_mg(squares, Color::White, square as int),
            black_mg == sum_mg(squares, Color::Black, square as int),
            white_eg == sum_eg(squares, Color::White, square as int),
            black_eg == sum_eg(squares, Color::Black, square as int),
            white_bishops == bishop_count(squares, Color::White, square as int),
            black_bishops == bishop_count(squares, Color::Black, square as int),
            mg_phase == phase_sum(squares, square as int),
            -220 * square <= white_mg <= 1325 * square,
            -220 * square <= black_mg <= 1325 * square,
            -220 * square <= white_eg <= 1325 * square,
            -220 * square <= black_eg <= 1325 * square,
            0 <= white_bishops <= square,
            0 <= black_bishops <= square,
            0 <= mg_phase <= 4 * square,
        decreases 64 - square,
    {
        match board.occupant(square) {
            Some((side, piece)) => {
                let (mg, eg) = piece_terms(board, square, side, piece);
                mg_phase = mg_phase + piece_phase(piece);
                match side {
                    Color::White => {
                        white_mg = white_mg + mg;
                        white_eg = white_eg + eg;
                        if piece == Piece::Bishop {
                            white_bishops = white_bishops + 1;
                        }
                    },
                    Color::Black => {
                        black_mg = black_mg + mg;
                        black_eg = black_eg + eg;
                        if piece == Piece::Bishop {
                            black_bishops = black_bishops + 1;
                        }
                    },
                }
            },
            None => {},
        }
        square = square + 1;
    }
    if white_bishops > 1 {
        white_mg = white_mg + tables::BISHOP_PAIR_MG;
        white_eg = white_eg + tables::BISHOP_PAIR_EG;
    }
    if black_bishops > 1 {
        black_mg = black_mg + tables::BISHOP_PAIR_MG;
        black_eg = black_eg + tables::BISHOP_PAIR_EG;
    }
    if board.side_to_move() == Color::White {
        white_mg = white_mg + tables::TEMPO_BONUS;
    } else {
        black_mg = black_mg + tables::TEMPO_BONUS;
    }
    let mg: i32 = white_mg - black_mg;
    let eg: i32 = white_eg - black_eg;
    if mg_phase > 24 {
        mg_phase = 24;
    }
    let eg_phase: i32 = 24 - mg_phase;
    assert(-100000 * mg_phase <= mg * mg_phase <= 100000 * mg_phase) by (nonlinear_arith)
        requires
            -100000 <= mg <= 100000,
            0 <= mg_phase,
    ;
    assert(-100000 * eg_phase <= eg * eg_phase <= 100000 * eg_phase) by (nonlinear_arith)
        requires
            -100000 <= eg <= 100000,
            0 <= eg_phase,
    ;
    let blended: i32 = mg * mg_phase + eg * eg_phase;
    let mut score: i32 = if blended >= 0 {
        blended / 24
    } else {
        -((-blended) / 24)
    };
    if board.side_to_move() == Color::Black {
        score = -score;
    }
    score
}

/// The evaluator is a function of the position alone: two evaluations of
/// the same position give the same score.
pub proof fn lemma_evaluation_deterministic(a: PositionView, b: PositionView)
    requires
        a == b,
    ensures
        evaluation(a) == evaluation(b),
{
}

} // verus!
