//! The chess values that the search reads: sides, pieces, moves, and a
//! position that mirrors a `cozy_chess::Board` as plain values.
//!
//! The board itself stays a `cozy_chess::Board`: it generates the legal
//! moves, plays them, and reports the game status and the hash. What the
//! evaluator and the move orderer read of it is copied into plain fields
//! when a `Position` is built.
use vstd::prelude::*;

verus! {

#[verifier::external_type_specification]
#[verifier::external_body]
pub struct ExBoard(cozy_chess::Board);

/// Relies on the derived `Clone` of `cozy_chess::Board`: an independent copy.
pub assume_specification[ <cozy_chess::Board as Clone>::clone ](b: &cozy_chess::Board) -> cozy_chess::Board;

#[derive(Clone, Copy, PartialEq, Eq, Structural, Debug)]
pub enum Color {
    White,
    Black,
}

#[derive(Clone, Copy, PartialEq, Eq, Structural, Debug)]
pub enum Piece {
    Pawn,
    Knight,
    Bishop,
    Rook,
    Queen,
    King,
}

/// The state of the game in a position, for the side to move.
#[derive(Clone, Copy, PartialEq, Eq, Structural, Debug)]
pub enum GameState {
    /// The side to move has been checkmated.
    Won,
    Drawn,
    Ongoing,
}

/// A move: squares are numbered 0 (a1) to 63 (h8), rank by rank.
#[derive(Clone, Copy, PartialEq, Eq, Structural, Debug)]
pub struct Move {
    pub from: u8,
    pub to: u8,
    pub promotion: Option<Piece>,
}

impl Move {
    /// The sentinel that stands for "no move yet": a1 to a1.
    pub open spec fn null_spec() -> Move {
        Move { from: 0, to: 0, promotion: None }
    }

    pub fn null() -> (r: Move)
        ensures
            r == Move::null_spec(),
    {
        Move { from: 0, to: 0, promotion: None }
    }

    pub open spec fn wf(self) -> bool {
        self.from < 64 && self.to < 64
    }
}

pub open spec fn piece_char(p: Piece) -> char {
    match p {
        Piece::Pawn => 'p',
        Piece::Knight => 'n',
        Piece::Bishop => 'b',
        Piece::Rook => 'r',
        Piece::Queen => 'q',
        Piece::King => 'k',
    }
}

/// The name of a square, such as `e4`.
pub open spec fn square_text(sq: int) -> Seq<char> {
    seq![
        seq!['a', 'b', 'c', 'd', 'e', 'f', 'g', 'h'][sq % 8],
        seq!['1', '2', '3', '4', '5', '6', '7', '8'][sq / 8],
    ]
}

/// The coordinate text of a move: its two squares, then the promotion
/// piece in lower case, if any.
pub open spec fn move_text_of(m: Move) -> Seq<char> {
    let squares = square_text(m.from as int) + square_text(m.to as int);
    match m.promotion {
        Some(p) => squares.push(piece_char(p)),
        None => squares,
    }
}

pub open spec fn opposite(c: Color) -> Color {
    match c {
        Color::White => Color::Black,
        Color::Black => Color::White,
    }
}

pub fn other_side(c: Color) -> (r: Color)
    ensures
        r == opposite(c),
{
    match c {
        Color::White => Color::Black,
        Color::Black => Color::White,
    }
}

/// What the logic reads of a position.
pub struct PositionView {
    /// Indexed by square, 0 (a1) to 63 (h8).
    pub squares: Seq<Option<(Color, Piece)>>,
    pub side_to_move: Color,
    pub hash: u64,
    pub in_check: bool,
    pub status: GameState,
}

/// A position: a `cozy_chess::Board` and the plain values read from it.
pub struct Position {
    board: cozy_chess::Board,
    squares: Vec<Option<(Color, Piece)>>,
    side_to_move: Color,
    hash: u64,
    in_check: bool,
    status: GameState,
}

impl View for Position {
    type V = PositionView;

    closed spec fn view(&self) -> PositionView {
        PositionView {
            squares: self.squares@,
            side_to_move: self.side_to_move,
            hash: self.hash,
            in_check: self.in_check,
            status: self.status,
        }
    }
}

/// Relies on `cozy_chess::Board::piece_on`: the piece on a square, if any.
#[verifier::external_body]
fn board_piece_on(b: &cozy_chess::Board, sq: u8) -> (r: Option<Piece>)
    requires
        sq < 64,
{
    match b.piece_on(cozy_chess::Square::index(sq as usize)) {
        Some(cozy_chess::Piece::Pawn) => Some(Piece::Pawn),
        Some(cozy_chess::Piece::Knight) => Some(Piece::Knight),
        Some(cozy_chess::Piece::Bishop) => Some(Piece::Bishop),
        Some(cozy_chess::Piece::Rook) => Some(Piece::Rook),
        Some(cozy_chess::Piece::Queen) => Some(Piece::Queen),
        Some(cozy_chess::Piece::King) => Some(Piece::King),
        None => None,
    }
}

/// Relies on `cozy_chess::Board::color_on`: the color of the piece on a
/// square, if any.
#[verifier::external_body]
fn board_color_on(b: &cozy_chess::Board, sq: u8) -> (r: Option<Color>)
    requires
        sq < 64,
{
    match b.color_on(cozy_chess::Square::index(sq as usize)) {
        Some(cozy_chess::Color::White) => Some(Color::White),
        Some(cozy_chess::Color::Black) => Some(Color::Black),
        None => None,
    }
}

/// Relies on `cozy_chess::Board::side_to_move`.
#[verifier::external_body]
fn board_side_to_move(b: &cozy_chess::Board) -> (r: Color) {
    match b.side_to_move() {
        cozy_chess::Color::White => Color::White,
        cozy_chess::Color::Black => Color::Black,
    }
}

/// Relies on `cozy_chess::Board::hash`: the position's 64-bit hash.
#[verifier::external_body]
fn board_hash(b: &cozy_chess::Board) -> (r: u64) {
    b.hash()
}

/// Relies on `cozy_chess::Board::checkers`: whether any piece gives check
/// to the side to move.
#[verifier::external_body]
fn board_in_check(b: &cozy_chess::Board) -> (r: bool) {
    !b.checkers().is_empty()
}

/// Relies on `cozy_chess::Board::status`.
#[verifier::external_body]
fn board_status(b: &cozy_chess::Board) -> (r: GameState) {
    match b.status() {
        cozy_chess::GameStatus::Won => GameState::Won,
        cozy_chess::GameStatus::Drawn => GameState::Drawn,
        cozy_chess::GameStatus::Ongoing => GameState::Ongoing,
    }
}

/// Relies on `cozy_chess::Board::generate_moves`: the legal moves of the
/// position, as (from, to, promotion) with squares and pieces by index.
/// Every move leaves its square (castling is written king onto rook).
#[verifier::external_body]
fn board_legal_moves(b: &cozy_chess::Board) -> (r: Vec<(u8, u8, Option<u8>)>)
    ensures
        forall|i: int|
            0 <= i < r@.len() ==> #[trigger] r@[i].0 < 64 && r@[i].1 < 64 && r@[i].0 != r@[i].1 && (
            r@[i].2 matches Some(p) ==> p < 6),
{
    let mut out: Vec<(u8, u8, Option<u8>)> = Vec::new();
    b.generate_moves(|pm| {
        for mv in pm {
            out.push((mv.from as u8, mv.to as u8, mv.promotion.map(|p| p as u8)));
        }
        false
    });
    out
}

/// Relies on `cozy_chess::Board::try_play`: the position after a move, or
/// `None` where the move is not legal.
#[verifier::external_body]
fn board_play(b: &cozy_chess::Board, from: u8, to: u8, promotion: Option<u8>) -> (r: Option<
    cozy_chess::Board,
>)
    requires
        from < 64,
        to < 64,
        promotion matches Some(p) ==> p < 6,
{
    let mv = cozy_chess::Move {
        from: cozy_chess::Square::index(from as usize),
        to: cozy_chess::Square::index(to as usize),
        promotion: promotion.map(|p| cozy_chess::Piece::index(p as usize)),
    };
    let mut next = b.clone();
    match next.try_play(mv) {
        Ok(()) => Some(next),
        Err(_) => None,
    }
}

/// Relies on `cozy_chess::Board::null_move`: the position with the turn
/// passed, or `None` where the side to move is in check.
#[verifier::external_body]
fn board_null_move(b: &cozy_chess::Board) -> (r: Option<cozy_chess::Board>) {
    b.null_move()
}

/// Relies on the `Display` impl of `cozy_chess::Move`: both squares as file
/// letter and rank digit, then the promotion piece's lower-case letter.
#[verifier::external_body]
fn coordinate_text(from: u8, to: u8, promotion: Option<u8>) -> (r: String)
    requires
        from < 64,
        to < 64,
        promotion matches Some(p) ==> p < 6,
    ensures
        r@ == move_text_of(
            Move { from, to, promotion: promotion_of_index(promotion) },
        ),
{
    let mv = cozy_chess::Move {
        from: cozy_chess::Square::index(from as usize),
        to: cozy_chess::Square::index(to as usize),
        promotion: promotion.map(|p| cozy_chess::Piece::index(p as usize)),
    };
    mv.to_string()
}

/// Pieces by index, in `cozy_chess::Piece` order.
pub open spec fn piece_of_index(i: int) -> Piece {
    if i == 0 {
        Piece::Pawn
    } else if i == 1 {
        Piece::Knight
    } else if i == 2 {
        Piece::Bishop
    } else if i == 3 {
        Piece::Rook
    } else if i == 4 {
        Piece::Queen
    } else {
        Piece::King
    }
}

pub open spec fn promotion_of_index(o: Option<u8>) -> Option<Piece> {
    match o {
        Some(p) => Some(piece_of_index(p as int)),
        None => None,
    }
}

pub fn piece_from_index(i: u8) -> (r: Piece)
    requires
        i < 6,
    ensures
        r == piece_of_index(i as int),
{
    if i == 0 {
        Piece::Pawn
    } else if i == 1 {
        Piece::Knight
    } else if i == 2 {
        Piece::Bishop
    } else if i == 3 {
        Piece::Rook
    } else if i == 4 {
        Piece::Queen
    } else {
        Piece::King
    }
}

pub fn piece_index(p: Piece) -> (r: u8)
    ensures
        r < 6,
        piece_of_index(r as int) == p,
{
    match p {
        Piece::Pawn => 0,
        Piece::Knight => 1,
        Piece::Bishop => 2,
        Piece::Rook => 3,
        Piece::Queen => 4,
        Piece::King => 5,
    }
}

/// The coordinate text of a move, such as `e2e4` or `e7e8q`.
pub fn move_text(m: Move) -> (r: String)
    requires
        m.wf(),
    ensures
        r@ == move_text_of(m),
{
    let promotion: Option<u8> = match m.promotion {
        Some(p) => Some(piece_index(p)),
        None => None,
    };
    coordinate_text(m.from, m.to, promotion)
}

impl Position {
    #[verifier::type_invariant]
    spec fn inv(&self) -> bool {
        self.squares@.len() == 64
    }

    /// Reads the plain values of a board.
    pub fn from_board(board: cozy_chess::Board) -> (r: Position)
        ensures
            r@.squares.len() == 64,
    {
        let mut squares: Vec<Option<(Color, Piece)>> = Vec::new();
        let mut sq: u8 = 0;
        while sq < 64
            invariant
                sq <= 64,
                squares@.len() == sq,
            decreases 64 - sq,
        {
            let occupant = match (board_color_on(&board, sq), board_piece_on(&board, sq)) {
                (Some(c), Some(p)) => Some((c, p)),
                _ => None,
            };
            squares.push(occupant);
            sq = sq + 1;
        }
        let side_to_move = board_side_to_move(&board);
        let hash = board_hash(&board);
        let in_check = board_in_check(&board);
        let status = board_status(&board);
        Position { board, squares, side_to_move, hash, in_check, status }
    }

    pub fn board(&self) -> &cozy_chess::Board {
        &self.board
    }

    /// The side and the piece on a square, if any.
    pub fn occupant(&self, sq: u8) -> (r: Option<(Color, Piece)>)
        requires
            sq < 64,
        ensures
            r == self@.squares[sq as int],
    {
        proof {
            use_type_invariant(self);
        }
        self.squares[sq as usize]
    }

    pub fn side_to_move(&self) -> (r: Color)
        ensures
            r == self@.side_to_move,
    {
        self.side_to_move
    }

    pub fn hash(&self) -> (r: u64)
        ensures
            r == self@.hash,
    {
        self.hash
    }

    pub fn in_check(&self) -> (r: bool)
        ensures
            r == self@.in_check,
    {
        self.in_check
    }

    pub fn status(&self) -> (r: GameState)
        ensures
            r == self@.status,
    {
        self.status
    }

    /// The legal moves of the position, in the order the rules engine
    /// generates them.
    pub fn legal_moves(&self) -> (r: Vec<Move>)
        ensures
            forall|i: int| 0 <= i < r@.len() ==> (#[trigger] r@[i]).wf() && r@[i].from != r@[i].to,
    {
        let raw = board_legal_moves(&self.board);
        let mut out: Vec<Move> = Vec::new();
        let mut i: usize = 0;
        while i < raw.len()
            invariant
                i <= raw@.len(),
                out@.len() == i,
                forall|k: int| 0 <= k < i ==> (#[trigger] out@[k]).wf() && out@[k].from != out@[k].to,
                forall|k: int|
                    0 <= k < raw@.len() ==> #[trigger] raw@[k].0 < 64 && raw@[k].1 < 64 && raw@[k].0
                        != raw@[k].1 && (raw@[k].2 matches Some(p) ==> p < 6),
            decreases raw@.len() - i,
        {
            let (from, to, promotion) = raw[i];
            let promotion: Option<Piece> = match promotion {
                Some(p) => Some(piece_from_index(p)),
                None => None,
            };
            out.push(Move { from, to, promotion });
            i = i + 1;
        }
        out
    }

    /// The position after a move, or `None` where the move is not legal.
    pub fn play(&self, m: Move) -> (r: Option<Position>)
        requires
            m.wf(),
    {
        let promotion: Option<u8> = match m.promotion {
            Some(p) => Some(piece_index(p)),
            None => None,
        };
        match board_play(&self.board, m.from, m.to, promotion) {
            Some(next) => Some(Position::from_board(next)),
            None => None,
        }
    }

    /// The position with the turn passed to the opponent, or `None` where the
    /// side to move is in check.
    pub fn null_move(&self) -> (r: Option<Position>) {
        match board_null_move(&self.board) {
            Some(next) => Some(Position::from_board(next)),
            None => None,
        }
    }
}

} // verus!
