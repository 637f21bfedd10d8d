//! The search: quiescence, principal-variation search, and the
//! iterative-deepening driver with aspiration windows.
use crate::board::{move_text, move_text_of, GameState, Move, Piece, Position, PositionView};
use crate::clock;
use crate::evaluation::{evaluation, pesto_evaluate_from_scratch, EVAL_LIMIT};
use crate::ordering::{
    history_index, history_slot, is_capture, is_stable_descending_order, move_is_capture, order_score, score_move,
    see_worst_case, sort_moves, worst_case_exchange, HISTORY_SIZE,
};
use crate::tt::{slot_of, NodeType, TTEntry, TranspositionTable, TT_SIZE};
use vstd::prelude::*;

verus! {

/// The score of a lost position at the root, and the signal of a search
/// that ran out of time.
pub const MIN_VAL: i32 = -1073741824;
/// The number of plies the search may go below the root.
pub const MAX_PLY: u32 = 128;
/// The driver deepens while the depth is below this.
pub const MAX_DEPTH: i32 = 100;
/// The half-width of an aspiration window after a search that landed inside.
pub const ASPIRATION_WINDOW: i64 = 15;
/// The widest aspiration half-width; a window this wide holds every score.
pub const WINDOW_CAP: i64 = 4294967296;

/// How many times `hash` occurs in `stack`.
pub open spec fn count_of(stack: Seq<u64>, hash: u64) -> int
    decreases stack.len(),
{
    if stack.len() == 0 {
        0
    } else {
        count_of(stack.drop_last(), hash) + if stack.last() == hash {
            1int
        } else {
            0int
        }
    }
}

/// A search window that the search accepts: both bounds at most one beyond
/// the range of scores, and `alpha < beta`.
pub open spec fn window_ok(alpha: int, beta: int) -> bool {
    MIN_VAL - 1 <= alpha < beta <= -MIN_VAL + 1
}

pub open spec fn score_ok(score: int) -> bool {
    MIN_VAL <= score <= -MIN_VAL
}

/// A score that may be cached: neither the abort signal nor its negation.
pub open spec fn cacheable(score: int) -> bool {
    MIN_VAL < score < -MIN_VAL
}

/// The driver's state between two searches: the depth to search next and
/// the aspiration window.
#[derive(Clone, Copy, PartialEq, Eq, Structural, Debug)]
pub struct Aspiration {
    pub depth: i32,
    pub window: i64,
    pub alpha: i32,
    pub beta: i32,
}

/// The window of half-width `window` around `score`, cut to the range that
/// the search accepts.
pub open spec fn window_around(score: int, window: int) -> (int, int) {
    (
        if score - window < MIN_VAL - 1 {
            MIN_VAL - 1
        } else {
            score - window
        },
        if score + window > -MIN_VAL + 1 {
            -MIN_VAL + 1
        } else {
            score + window
        },
    )
}

/// The driver's next state after a search at `a.depth` returned `score`.
/// A score at or beyond either bound doubles the window (up to its cap)
/// around the score and keeps the depth; otherwise the window goes back to
/// its base width around the score and the depth advances.
pub open spec fn next_aspiration(a: Aspiration, score: int) -> Aspiration {
    if score <= a.alpha || score >= a.beta {
        let w = if 2 * a.window > WINDOW_CAP {
            WINDOW_CAP as int
        } else {
            2 * a.window
        };
        Aspiration {
            depth: a.depth,
            window: w as i64,
            alpha: window_around(score, w).0 as i32,
            beta: window_around(score, w).1 as i32,
        }
    } else {
        Aspiration {
            depth: (a.depth + 1) as i32,
            window: ASPIRATION_WINDOW,
            alpha: window_around(score, ASPIRATION_WINDOW as int).0 as i32,
            beta: window_around(score, ASPIRATION_WINDOW as int).1 as i32,
        }
    }
}

pub open spec fn aspiration_ok(a: Aspiration) -> bool {
    &&& ASPIRATION_WINDOW <= a.window <= WINDOW_CAP
    &&& window_ok(a.alpha as int, a.beta as int)
}

/// The driver's step after one search: see `next_aspiration`.
pub fn aspiration_update(a: Aspiration, score: i32) -> (r: Aspiration)
    requires
        aspiration_ok(a),
        score_ok(score as int),
        a.depth < MAX_DEPTH,
    ensures
        r == next_aspiration(a, score as int),
        aspiration_ok(r),
{
    if score <= a.alpha || score >= a.beta {
        let window: i64 = if 2 * a.window > WINDOW_CAP {
            WINDOW_CAP
        } else {
            2 * a.window
        };
        let (alpha, beta) = window_bounds(score, window);
        Aspiration { depth: a.depth, window, alpha, beta }
    } else {
        let (alpha, beta) = window_bounds(score, ASPIRATION_WINDOW);
        Aspiration { depth: a.depth + 1, window: ASPIRATION_WINDOW, alpha, beta }
    }
}

fn window_bounds(score: i32, window: i64) -> (r: (i32, i32))
    requires
        score_ok(score as int),
        ASPIRATION_WINDOW <= window <= WINDOW_CAP,
    ensures
        r.0 == window_around(score as int, window as int).0,
        r.1 == window_around(score as int, window as int).1,
        window_ok(r.0 as int, r.1 as int),
{
    let low: i64 = score as i64 - window;
    let high: i64 = score as i64 + window;
    let alpha: i32 = if low < MIN_VAL as i64 - 1 {
        MIN_VAL - 1
    } else {
        low as i32
    };
    let beta: i32 = if high > -(MIN_VAL as i64) + 1 {
        -MIN_VAL + 1
    } else {
        high as i32
    };
    (alpha, beta)
}

/// A failed search at some depth is searched again at that same depth, with
/// the window doubled (up to its cap) around the result; and once the
/// window has reached its cap, every score that a search can return lies
/// strictly inside it, so the depth then advances.
pub proof fn lemma_aspiration_re_search(a: Aspiration, score: int)
    requires
        aspiration_ok(a),
        score_ok(score),
    ensures
        (score <= a.alpha || score >= a.beta) ==> next_aspiration(a, score).depth == a.depth
            && next_aspiration(a, score).window == if 2 * a.window > WINDOW_CAP {
            WINDOW_CAP as int
        } else {
            2 * a.window
        },
        next_aspiration(a, score).window == WINDOW_CAP ==> forall|s: int|
            score_ok(s) ==> next_aspiration(a, score).alpha < s < next_aspiration(a, score).beta,
{
}

/// What a transposition-table probe decides at a node: return a cached
/// score, or search within a (possibly narrowed) window.
#[derive(Clone, Copy, PartialEq, Eq, Structural, Debug)]
pub enum TtVerdict {
    Cutoff(i32),
    Window(i32, i32),
}

/// The probe's decision. An entry is used only when it was stored under this
/// very hash, at least as deep, away from the root and outside a PV node
/// (a window wider than one point); its bound then narrows the window, and
/// an exact score or an emptied window returns the stored score.
pub open spec fn tt_verdict(e: TTEntry, hash: u64, depth: i32, alpha: i32, beta: i32, root: bool) -> TtVerdict {
    if e.hash == hash && e.depth >= depth && !root && beta - alpha <= 1 {
        match e.node_type {
            NodeType::Exact => TtVerdict::Cutoff(e.score),
            NodeType::LowerBound => {
                let a = if e.score > alpha {
                    e.score
                } else {
                    alpha
                };
                if a >= beta {
                    TtVerdict::Cutoff(e.score)
                } else {
                    TtVerdict::Window(a, beta)
                }
            },
            NodeType::UpperBound => {
                let b = if e.score < beta {
                    e.score
                } else {
                    beta
                };
                if alpha >= b {
                    TtVerdict::Cutoff(e.score)
                } else {
                    TtVerdict::Window(alpha, b)
                }
            },
        }
    } else {
        TtVerdict::Window(alpha, beta)
    }
}

/// The bound that a node's best score gives, against the node's window.
pub open spec fn bound_of(best: int, alpha: int, beta: int) -> NodeType {
    if best <= alpha {
        NodeType::UpperBound
    } else if best >= beta {
        NodeType::LowerBound
    } else {
        NodeType::Exact
    }
}

/// A value clamped to the range of `i32`.
pub open spec fn saturate(x: int) -> i32 {
    if x > i32::MAX {
        i32::MAX
    } else if x < i32::MIN {
        i32::MIN
    } else {
        x as i32
    }
}

/// A history table with `amount` added to entry `k`, saturating.
pub open spec fn bump(h: Seq<i32>, k: int, amount: int) -> Seq<i32> {
    h.update(k, saturate(h[k] + amount))
}

/// The history table after the penalty of 1 for each quiet move among the
/// first `n` that was tried (not skipped by futility pruning).
pub open spec fn gravity(h: Seq<i32>, v: PositionView, moves: Seq<Move>, n: int, can_fp: bool) -> Seq<
    i32,
>
    decreases n,
{
    if n <= 0 {
        h
    } else {
        let g = gravity(h, v, moves, n - 1, can_fp);
        let m = moves[n - 1];
        if !is_capture(v, m) && !(can_fp && n - 1 > 4) {
            bump(g, history_index(v.side_to_move, m.from as int, m.to as int), -1)
        } else {
            g
        }
    }
}

/// The history table after move `i` of the list caused a beta cutoff: a
/// quiet cutting move gains `depth * depth`, then each quiet move tried
/// before it loses 1. A capture leaves the table as it was.
pub open spec fn cutoff_history(
    h: Seq<i32>,
    v: PositionView,
    moves: Seq<Move>,
    i: int,
    can_fp: bool,
    depth: int,
) -> Seq<i32> {
    let m = moves[i];
    if is_capture(v, m) {
        h
    } else {
        gravity(
            bump(h, history_index(v.side_to_move, m.from as int, m.to as int), depth * depth),
            v,
            moves,
            i,
            can_fp,
        )
    }
}

/// Everything but the node counter is the same.
pub open spec fn tables_kept(a: SearcherView, b: SearcherView) -> bool {
    &&& a.tt == b.tt
    &&& a.killers == b.killers
    &&& a.history == b.history
    &&& a.repetition == b.repetition
    &&& a.root_best_move == b.root_best_move
    &&& a.root_score == b.root_score
}

/// The depth added at a node in check below the root.
pub open spec fn check_extension(v: PositionView, ply: int) -> int {
    if v.in_check && ply > 0 {
        1
    } else {
        0
    }
}

/// The node is searched by quiescence: no depth is left, or the ply limit
/// is reached.
pub open spec fn at_horizon(v: PositionView, depth: int, ply: int) -> bool {
    depth + check_extension(v, ply) <= 0 || ply + 1 >= MAX_PLY
}

/// The probe's decision for a node: see `tt_verdict`.
pub fn tt_decision(entry: TTEntry, hash: u64, depth: i32, alpha: i32, beta: i32, root: bool) -> (r:
    TtVerdict)
    requires
        alpha < beta,
    ensures
        r == tt_verdict(entry, hash, depth, alpha, beta, root),
        r matches TtVerdict::Window(a, b) ==> alpha <= a < b <= beta,
        r matches TtVerdict::Cutoff(s) ==> s == entry.score,
{
    if entry.hash == hash && entry.depth >= depth && !root && !(beta as i64 - alpha as i64 > 1) {
        match entry.node_type {
            NodeType::Exact => TtVerdict::Cutoff(entry.score),
            NodeType::LowerBound => {
                let a: i32 = if entry.score > alpha {
                    entry.score
                } else {
                    alpha
                };
                if a >= beta {
                    TtVerdict::Cutoff(entry.score)
                } else {
                    TtVerdict::Window(a, beta)
                }
            },
            NodeType::UpperBound => {
                let b: i32 = if entry.score < beta {
                    entry.score
                } else {
                    beta
                };
                if alpha >= b {
                    TtVerdict::Cutoff(entry.score)
                } else {
                    TtVerdict::Window(alpha, b)
                }
            },
        }
    } else {
        TtVerdict::Window(alpha, beta)
    }
}

/// The bound of a node's best score: see `bound_of`.
pub fn classify_bound(best: i32, alpha: i32, beta: i32) -> (r: NodeType)
    ensures
        r == bound_of(best as int, alpha as int, beta as int),
{
    if best <= alpha {
        NodeType::UpperBound
    } else if best >= beta {
        NodeType::LowerBound
    } else {
        NodeType::Exact
    }
}

/// A node's stored result comes back from the table unchanged: probing the
/// same hash right after the store, at no greater depth, away from the root
/// and with a null window, returns the stored score when it was exact, a
/// lower bound at or above beta, or an upper bound at or below alpha.
pub proof fn lemma_stored_result_cuts_off(
    tt: Seq<TTEntry>,
    hash: u64,
    depth: i32,
    best: i32,
    best_move: Move,
    alpha: i32,
    beta: i32,
    probe_depth: i32,
    probe_alpha: i32,
    probe_beta: i32,
)
    requires
        tt.len() == TT_SIZE,
        probe_depth <= depth,
        probe_alpha < probe_beta,
        probe_beta - probe_alpha <= 1,
        (bound_of(best as int, alpha as int, beta as int) == NodeType::Exact) || (bound_of(
            best as int,
            alpha as int,
            beta as int,
        ) == NodeType::LowerBound && best >= probe_beta) || (bound_of(
            best as int,
            alpha as int,
            beta as int,
        ) == NodeType::UpperBound && best <= probe_alpha),
    ensures
        tt_verdict(
            tt.update(
                slot_of(hash),
                TTEntry {
                    hash,
                    depth,
                    score: best,
                    best_move,
                    node_type: bound_of(best as int, alpha as int, beta as int),
                },
            )[slot_of(hash)],
            hash,
            probe_depth,
            probe_alpha,
            probe_beta,
            false,
        ) == TtVerdict::Cutoff(best),
{
}

/// The search engine's state: the transposition table, the killer and
/// history tables, the repetition stack, and the root result of the
/// current search.
pub struct AlphaBetaSearcher {
    transposition_table: TranspositionTable,
    root_best_move: Move,
    root_score: i32,
    nodes: u64,
    killer_table: Vec<Move>,
    history_table: Vec<i32>,
    threefold_repetition: Vec<u64>,
}

pub struct SearcherView {
    pub tt: Seq<TTEntry>,
    pub root_best_move: Move,
    pub root_score: i32,
    pub killers: Seq<Move>,
    pub history: Seq<i32>,
    /// The hashes of the game's positions, then those of the current
    /// search path.
    pub repetition: Seq<u64>,
    /// The nodes visited since the current search began.
    pub nodes: u64,
}

impl View for AlphaBetaSearcher {
    type V = SearcherView;

    closed spec fn view(&self) -> SearcherView {
        SearcherView {
            tt: self.transposition_table@,
            root_best_move: self.root_best_move,
            root_score: self.root_score,
            killers: self.killer_table@,
            history: self.history_table@,
            repetition: self.threefold_repetition@,
            nodes: self.nodes,
        }
    }
}

/// The search's answer at the root was not a legal move of the position: a
/// defect of the search or of the rules engine.
#[derive(Clone, Copy, PartialEq, Eq, Structural, Debug)]
pub struct IllegalRootMove {
    pub chosen: Move,
    /// The last depth whose search completed.
    pub depth_reached: i32,
}

/// A vector of `n` zeros.
fn zeros(n: usize) -> (r: Vec<i32>)
    ensures
        r@.len() == n,
        forall|k: int| 0 <= k < n ==> #[trigger] r@[k] == 0,
{
    let mut v: Vec<i32> = Vec::new();
    let mut i: usize = 0;
    while i < n
        invariant
            i <= n,
            v@.len() == i,
            forall|k: int| 0 <= k < i ==> #[trigger] v@[k] == 0,
        decreases n - i,
    {
        v.push(0);
        i = i + 1;
    }
    v
}

impl AlphaBetaSearcher {
    /// The table sizes, and no cached score that signals an aborted search.
    pub open spec fn wf(&self) -> bool {
        &&& self@.tt.len() == TT_SIZE
        &&& forall|i: int| 0 <= i < TT_SIZE ==> cacheable(#[trigger] self@.tt[i].score as int)
        &&& self@.killers.len() == MAX_PLY
        &&& self@.history.len() == HISTORY_SIZE
    }

    /// A searcher with an empty table, null killers, a zero history and an
    /// empty repetition stack.
    pub fn new() -> (r: AlphaBetaSearcher)
        ensures
            r.wf(),
            r@.repetition.len() == 0,
            r@.root_best_move == Move::null_spec(),
            r@.root_score == 0,
            r@.nodes == 0,
            forall|k: int| 0 <= k < MAX_PLY ==> #[trigger] r@.killers[k] == Move::null_spec(),
            forall|k: int| 0 <= k < HISTORY_SIZE ==> #[trigger] r@.history[k] == 0,
            forall|k: int| 0 <= k < TT_SIZE ==> #[trigger] r@.tt[k] == TTEntry::empty_spec(),
    {
        let mut killer_table: Vec<Move> = Vec::new();
        let mut i: u32 = 0;
        while i < MAX_PLY
            invariant
                i <= MAX_PLY,
                killer_table@.len() == i,
                forall|k: int| 0 <= k < i ==> #[trigger] killer_table@[k] == Move::null_spec(),
            decreases MAX_PLY - i,
        {
            killer_table.push(Move::null());
            i = i + 1;
        }
        AlphaBetaSearcher {
            transposition_table: TranspositionTable::new(),
            root_best_move: Move::null(),
            root_score: 0,
            nodes: 0,
            killer_table,
            history_table: zeros(HISTORY_SIZE),
            threefold_repetition: Vec::new(),
        }
    }

    /// Records the hash of a position reached in the game.
    pub fn add_to_threefold_repetition(&mut self, hash: u64)
        ensures
            final(self)@ == (SearcherView { repetition: old(self)@.repetition.push(hash), ..old(self)@ }),
    {
        self.threefold_repetition.push(hash);
    }

    /// Forgets the game's positions.
    pub fn clear_threefold_repetition(&mut self)
        ensures
            final(self)@ == (SearcherView { repetition: Seq::empty(), ..old(self)@ }),
    {
        self.threefold_repetition = Vec::new();
    }

    /// The best move recorded at the root by the last search.
    pub fn root_best_move(&self) -> (r: Move)
        ensures
            r == self@.root_best_move,
    {
        self.root_best_move
    }

    /// The score of the best move recorded at the root.
    pub fn root_score(&self) -> (r: i32)
        ensures
            r == self@.root_score,
    {
        self.root_score
    }

    /// The transposition-table entry in the slot of `hash`.
    pub fn tt_entry(&self, hash: u64) -> (r: TTEntry)
        requires
            self.wf(),
        ensures
            r == self@.tt[slot_of(hash)],
    {
        self.transposition_table.probe(hash)
    }

    /// The number of nodes visited by the last search.
    pub fn nodes(&self) -> (r: u64)
        ensures
            r == self@.nodes,
    {
        self.nodes
    }

    /// How many times `hash` occurs on the repetition stack.
    pub fn repetitions(&self, hash: u64) -> (r: usize)
        ensures
            r == count_of(self@.repetition, hash),
    {
        let ghost stack = self.threefold_repetition@;
        let mut count: usize = 0;
        let mut i: usize = 0;
        while i < self.threefold_repetition.len()
            invariant
                stack == self.threefold_repetition@,
                i <= stack.len(),
                count <= i,
                count == count_of(stack.subrange(0, i as int), hash),
            decreases stack.len() - i,
        {
            proof {
                assert(stack.subrange(0, i + 1).drop_last() =~= stack.subrange(0, i as int));
            }
            if self.threefold_repetition[i] == hash {
                count = count + 1;
            }
            i = i + 1;
        }
        proof {
            assert(stack.subrange(0, stack.len() as int) =~= stack);
        }
        count
    }

    /// The move-order score of each move, in the order of the list.
    pub fn score_moves(&self, board: &Position, moves: &Vec<Move>, tt_move: Move, ply: u32) -> (r: Vec<i64>)
        requires
            self.wf(),
            ply < MAX_PLY,
            forall|k: int| 0 <= k < moves@.len() ==> (#[trigger] moves@[k]).wf(),
        ensures
            r@.len() == moves@.len(),
            forall|k: int|
                0 <= k < moves@.len() ==> #[trigger] r@[k] == order_score(
                    board@,
                    moves@[k],
                    tt_move,
                    self@.killers[ply as int],
                    self@.history,
                ),
    {
        let mut scores: Vec<i64> = Vec::new();
        let killer: Move = self.killer_table[ply as usize];
        let mut i: usize = 0;
        while i < moves.len()
            invariant
                self.wf(),
                ply < MAX_PLY,
                killer == self@.killers[ply as int],
                i <= moves@.len(),
                scores@.len() == i,
                forall|k: int| 0 <= k < moves@.len() ==> (#[trigger] moves@[k]).wf(),
                forall|k: int|
                    0 <= k < i ==> #[trigger] scores@[k] == order_score(
                        board@,
                        moves@[k],
                        tt_move,
                        killer,
                        self@.history,
                    ),
            decreases moves@.len() - i,
        {
            scores.push(score_move(board, moves[i], tt_move, killer, &self.history_table));
            i = i + 1;
        }
        scores
    }

    fn count_node(&mut self)
        ensures
            tables_kept(final(self)@, old(self)@),
            final(self)@.nodes == if old(self)@.nodes < u64::MAX {
                (old(self)@.nodes + 1) as u64
            } else {
                old(self)@.nodes
            },
    {
        if self.nodes < u64::MAX {
            self.nodes = self.nodes + 1;
        }
    }

    /// Keeps the capturing moves of a list.
    fn captures_of(board: &Position, moves: &Vec<Move>) -> (r: Vec<Move>)
        requires
            forall|k: int| 0 <= k < moves@.len() ==> (#[trigger] moves@[k]).wf(),
        ensures
            forall|k: int|
                0 <= k < r@.len() ==> (#[trigger] r@[k]).wf() && is_capture(board@, r@[k]),
    {
        let mut out: Vec<Move> = Vec::new();
        let mut i: usize = 0;
        while i < moves.len()
            invariant
                i <= moves@.len(),
                forall|k: int| 0 <= k < moves@.len() ==> (#[trigger] moves@[k]).wf(),
                forall|k: int|
                    0 <= k < out@.len() ==> (#[trigger] out@[k]).wf() && is_capture(board@, out@[k]),
            decreases moves@.len() - i,
        {
            if move_is_capture(board, &moves[i]) {
                out.push(moves[i]);
            }
            i = i + 1;
        }
        out
    }

    /// Orders a list of moves for search: scores each, then sorts them by
    /// descending score.
    fn ordered_moves(&self, board: &Position, moves: Vec<Move>, tt_move: Move, ply: u32) -> (r: Vec<Move>)
        requires
            self.wf(),
            ply < MAX_PLY,
            forall|k: int| 0 <= k < moves@.len() ==> (#[trigger] moves@[k]).wf(),
        ensures
            forall|k: int| 0 <= k < r@.len() ==> (#[trigger] r@[k]).wf(),
            exists|scores: Seq<i64>, sorted_scores: Seq<i64>, p: Seq<int>|
                is_stable_descending_order(moves@, scores, r@, sorted_scores, p) && scores.len()
                    == moves@.len() && forall|k: int|
                    0 <= k < moves@.len() ==> #[trigger] scores[k] == order_score(
                        board@,
                        moves@[k],
                        tt_move,
                        self@.killers[ply as int],
                        self@.history,
                    ),
    {
        let mut moves = moves;
        let ghost before = moves@;
        let mut scores = self.score_moves(board, &moves, tt_move, ply);
        let ghost unsorted = scores@;
        sort_moves(&mut moves, &mut scores);
        proof {
            let p = choose|p: Seq<int>| is_stable_descending_order(before, unsorted, moves@, scores@, p);
            assert forall|k: int| 0 <= k < moves@.len() implies (#[trigger] moves@[k]).wf() by {
                assert(moves@[k] == before[p[k]]);
            }
        }
        moves
    }

    /// Searches captures only, from the position's static evaluation, until
    /// the position is quiet. Past `time_limit` nanoseconds after
    /// `start_time` it returns `MIN_VAL`, the abort signal. The result is
    /// fail-hard: the abort signal, `beta`, or a score from
    /// `max(alpha, evaluation)` up to below `beta`.
    pub fn quiesce(
        &mut self,
        board: &Position,
        alpha: i32,
        beta: i32,
        ply: u32,
        start_time: &std::time::Instant,
        time_limit: u128,
    ) -> (r: i32)
        requires
            old(self).wf(),
            ply < MAX_PLY,
            window_ok(alpha as int, beta as int),
        ensures
            final(self).wf(),
            tables_kept(final(self)@, old(self)@),
            score_ok(r as int),
            evaluation(board@) >= beta ==> r == beta,
            r == MIN_VAL || r == beta || (alpha <= r && evaluation(board@) <= r && r < beta),
        decreases MAX_PLY - ply, 2int,
    {
        self.count_node();
        let stand_pat: i32 = pesto_evaluate_from_scratch(board);
        if stand_pat >= beta {
            return beta;
        }
        let expired: bool = clock::elapsed_nanos(start_time) > time_limit;
        self.quiesce_after_clock(board, stand_pat, alpha, beta, ply, start_time, time_limit, expired)
    }

    /// Quiescence once the clock has been read and the stand-pat score is
    /// below beta: `MIN_VAL` if the time is up; else the stand-pat score
    /// raised to alpha at the ply limit, or the search of the captures.
    pub fn quiesce_after_clock(
        &mut self,
        board: &Position,
        stand_pat: i32,
        alpha: i32,
        beta: i32,
        ply: u32,
        start_time: &std::time::Instant,
        time_limit: u128,
        expired: bool,
    ) -> (r: i32)
        requires
            old(self).wf(),
            ply < MAX_PLY,
            window_ok(alpha as int, beta as int),
            stand_pat == evaluation(board@),
            -EVAL_LIMIT <= stand_pat <= EVAL_LIMIT,
            stand_pat < beta,
        ensures
            final(self).wf(),
            tables_kept(final(self)@, old(self)@),
            score_ok(r as int),
            expired ==> r == MIN_VAL && final(self)@ == old(self)@,
            !expired ==> r == beta || (alpha <= r && stand_pat <= r && r < beta),
            !expired && ply + 1 >= MAX_PLY ==> r == if alpha > stand_pat {
                alpha
            } else {
                stand_pat
            },
        decreases MAX_PLY - ply, 1int,
    {
        if expired {
            return MIN_VAL;
        }
        let local_alpha: i32 = if alpha > stand_pat {
            alpha
        } else {
            stand_pat
        };
        if ply + 1 >= MAX_PLY {
            return local_alpha;
        }
        let legal = board.legal_moves();
        let captures = Self::captures_of(board, &legal);
        let moves = self.ordered_moves(board, captures, Move::null(), ply);
        self.quiesce_moves(board, &moves, stand_pat, local_alpha, beta, ply, start_time, time_limit)
    }

    /// Searches the given captures in order, within `(alpha, beta)` where
    /// `alpha` already holds the stand-pat score. The first capture whose
    /// pessimistic estimate still leaves the stand-pat score above beta ends
    /// the node with `beta`, as does a capture that scores at least beta;
    /// otherwise the result is alpha raised by the best capture.
    pub fn quiesce_moves(
        &mut self,
        board: &Position,
        moves: &Vec<Move>,
        stand_pat: i32,
        alpha: i32,
        beta: i32,
        ply: u32,
        start_time: &std::time::Instant,
        time_limit: u128,
    ) -> (r: i32)
        requires
            old(self).wf(),
            ply + 1 < MAX_PLY,
            forall|k: int| 0 <= k < moves@.len() ==> (#[trigger] moves@[k]).wf(),
            -EVAL_LIMIT <= stand_pat <= EVAL_LIMIT,
            stand_pat <= alpha < beta,
            window_ok(alpha as int, beta as int),
        ensures
            final(self).wf(),
            tables_kept(final(self)@, old(self)@),
            score_ok(r as int),
            r == beta || (alpha <= r && r < beta),
            moves@.len() == 0 ==> r == alpha && final(self)@ == old(self)@,
            moves@.len() > 0 && stand_pat + worst_case_exchange(board@, moves@[0]) > beta ==> r
                == beta && final(self)@ == old(self)@,
        decreases MAX_PLY - ply, 0int,
    {
        let mut local_alpha: i32 = alpha;
        let mut best_score: i32 = MIN_VAL;
        let mut i: usize = 0;
        while i < moves.len()
            invariant
                self.wf(),
                tables_kept(self@, old(self)@),
                i == 0 ==> self@ == old(self)@ && local_alpha == alpha,
                i > 0 ==> stand_pat + worst_case_exchange(board@, moves@[0]) <= beta,
                i <= moves@.len(),
                ply + 1 < MAX_PLY,
                forall|k: int| 0 <= k < moves@.len() ==> (#[trigger] moves@[k]).wf(),
                -EVAL_LIMIT <= stand_pat <= EVAL_LIMIT,
                stand_pat <= alpha <= local_alpha < beta,
                window_ok(alpha as int, beta as int),
                score_ok(best_score as int),
            decreases moves@.len() - i,
        {
            let m: Move = moves[i];
            let worst_case: i32 = see_worst_case(board, m);
            let at_least: i32 = stand_pat + worst_case;
            // Even losing the capturing piece right after would leave the
            // score above beta: the whole node is taken to fail high.
            if at_least > beta {
                return beta;
            }
            match board.play(m) {
                Some(child) => {
                    let score: i32 = -self.quiesce(
                        &child,
                        -beta,
                        -local_alpha,
                        ply + 1,
                        start_time,
                        time_limit,
                    );
                    if score >= beta {
                        return beta;
                    }
                    if score > best_score {
                        best_score = score;
                        if score > local_alpha {
                            local_alpha = score;
                        }
                    }
                },
                None => {},
            }
            i = i + 1;
        }
        local_alpha
    }

    /// Adds `amount` to a history entry, saturating at the bounds of `i32`.
    fn bump_history(&mut self, slot: usize, amount: i32)
        requires
            old(self).wf(),
            slot < HISTORY_SIZE,
            -1 <= amount,
        ensures
            final(self).wf(),
            final(self)@ == (SearcherView {
                history: bump(old(self)@.history, slot as int, amount as int),
                ..old(self)@
            }),
    {
        let h: i32 = self.history_table[slot];
        let v: i32 = if amount > 0 && h > i32::MAX - amount {
            i32::MAX
        } else if amount < 0 && h < i32::MIN - amount {
            i32::MIN
        } else {
            h + amount
        };
        self.history_table.set(slot, v);
        proof {
            assert(self@.history =~= bump(old(self)@.history, slot as int, amount as int));
        }
    }

    /// The killer and history updates after move `i` caused a beta cutoff:
    /// the move becomes this ply's killer, and the history changes as
    /// `cutoff_history` says.
    pub fn record_cutoff(
        &mut self,
        board: &Position,
        moves: &Vec<Move>,
        i: usize,
        can_fp: bool,
        depth: i32,
        ply: u32,
    )
        requires
            old(self).wf(),
            i < moves@.len(),
            forall|k: int| 0 <= k < moves@.len() ==> (#[trigger] moves@[k]).wf(),
            ply < MAX_PLY,
            0 <= depth <= 1128,
        ensures
            final(self).wf(),
            final(self)@ == (SearcherView {
                killers: old(self)@.killers.update(ply as int, moves@[i as int]),
                history: cutoff_history(
                    old(self)@.history,
                    board@,
                    moves@,
                    i as int,
                    can_fp,
                    depth as int,
                ),
                ..old(self)@
            }),
    {
        let m: Move = moves[i];
        self.killer_table.set(ply as usize, m);
        let ghost after_killer = self@;
        if !move_is_capture(board, &m) {
            let side = board.side_to_move();
            assert(depth * depth <= 1128 * 1128) by (nonlinear_arith)
                requires
                    0 <= depth <= 1128,
            ;
            self.bump_history(history_slot(side, m.from, m.to), depth * depth);
            let ghost h0 = self@.history;
            let mut j: usize = 0;
            while j < i
                invariant
                    self.wf(),
                    self@ == (SearcherView { history: self@.history, ..after_killer }),
                    self@.history == gravity(h0, board@, moves@, j as int, can_fp),
                    side == board@.side_to_move,
                    j <= i < moves@.len(),
                    forall|k: int| 0 <= k < moves@.len() ==> (#[trigger] moves@[k]).wf(),
                decreases i - j,
            {
                let earlier: Move = moves[j];
                if !move_is_capture(board, &earlier) && !(can_fp && j > 4) {
                    self.bump_history(history_slot(side, earlier.from, earlier.to), -1);
                }
                j = j + 1;
            }
        }
    }

    /// Stores a node's result, unless it is the abort signal or its
    /// negation: the node's hash, depth, score, best move and the bound that
    /// the score gives against `(alpha, beta)`.
    pub fn store_result(
        &mut self,
        hash: u64,
        depth: i32,
        best_score: i32,
        best_move: Move,
        alpha: i32,
        beta: i32,
    )
        requires
            old(self).wf(),
            score_ok(best_score as int),
        ensures
            final(self).wf(),
            final(self)@ == (SearcherView {
                tt: if cacheable(best_score as int) {
                    old(self)@.tt.update(
                        slot_of(hash),
                        TTEntry {
                            hash,
                            depth,
                            score: best_score,
                            best_move,
                            node_type: bound_of(best_score as int, alpha as int, beta as int),
                        },
                    )
                } else {
                    old(self)@.tt
                },
                ..old(self)@
            }),
    {
        let node_type: NodeType = classify_bound(best_score, alpha, beta);
        if best_score != MIN_VAL && best_score != -MIN_VAL {
            let stored = TTEntry { hash, depth, score: best_score, best_move, node_type };
            self.transposition_table.store(stored);
            proof {
                assert forall|k: int| 0 <= k < TT_SIZE implies cacheable(
                    #[trigger] self@.tt[k].score as int,
                ) by {}
            }
        }
    }

    /// The principal-variation search of a position to `depth`, within
    /// `(alpha, beta)`, from the side to move's view. Past `time_limit`
    /// nanoseconds after `start_time` it returns `MIN_VAL`, the abort signal.
    pub fn pvs(
        &mut self,
        board: &Position,
        depth: i32,
        alpha: i32,
        beta: i32,
        ply: u32,
        start_time: &std::time::Instant,
        time_limit: u128,
        can_null: bool,
    ) -> (r: i32)
        requires
            old(self).wf(),
            ply < MAX_PLY,
            window_ok(alpha as int, beta as int),
            -1000 <= depth <= 1000 + ply,
        ensures
            final(self).wf(),
            final(self)@.repetition == old(self)@.repetition,
            ply > 0 ==> final(self)@.root_best_move == old(self)@.root_best_move
                && final(self)@.root_score == old(self)@.root_score,
            score_ok(r as int),
            board@.status == GameState::Won ==> r == MIN_VAL + ply && tables_kept(
                final(self)@,
                old(self)@,
            ),
            board@.status == GameState::Drawn ==> r == 0 && tables_kept(final(self)@, old(self)@),
            board@.status == GameState::Ongoing && ply > 0 && count_of(
                old(self)@.repetition,
                board@.hash,
            ) >= 2 ==> r == 0 && tables_kept(final(self)@, old(self)@),
            board@.status == GameState::Ongoing && !(ply > 0 && count_of(
                old(self)@.repetition,
                board@.hash,
            ) >= 2) && at_horizon(board@, depth as int, ply as int) ==> tables_kept(
                final(self)@,
                old(self)@,
            ) && (evaluation(board@) >= beta ==> r == beta) && (r == MIN_VAL || r == beta || (
            alpha <= r && evaluation(board@) <= r && r < beta)),
            ply == 0 && board@.status == GameState::Ongoing && !at_horizon(
                board@,
                depth as int,
                ply as int,
            ) && cacheable(r as int) ==> final(self)@.root_score == r
                && final(self)@.root_best_move.wf(),
        decreases MAX_PLY - ply, 4int,
    {
        self.count_node();
        let status = board.status();
        if status != GameState::Ongoing {
            match status {
                GameState::Won => {
                    return MIN_VAL + ply as i32;
                },
                GameState::Drawn => {
                    return 0;
                },
                _ => {},
            }
        }
        let root: bool = ply == 0;
        if !root {
            if self.repetitions(board.hash()) >= 2 {
                return 0;
            }
        }
        let mut depth_modifier: i32 = 0;
        if board.in_check() && !root {
            depth_modifier = depth_modifier + 1;
        }
        if depth + depth_modifier <= 0 || ply + 1 >= MAX_PLY {
            return self.quiesce(board, alpha, beta, ply, start_time, time_limit);
        }
        let expired: bool = clock::elapsed_nanos(start_time) > time_limit;
        self.pvs_after_clock(
            board,
            depth,
            depth_modifier,
            alpha,
            beta,
            ply,
            start_time,
            time_limit,
            can_null,
            expired,
        )
    }

    /// A node above the horizon once the clock has been read: `MIN_VAL` if
    /// the time is up; else the transposition-table decision, reverse
    /// futility and null-move pruning, then the search of the moves, whose
    /// result is stored in the table.
    pub fn pvs_after_clock(
        &mut self,
        board: &Position,
        depth: i32,
        depth_modifier: i32,
        alpha: i32,
        beta: i32,
        ply: u32,
        start_time: &std::time::Instant,
        time_limit: u128,
        can_null: bool,
        expired: bool,
    ) -> (r: i32)
        requires
            old(self).wf(),
            ply + 1 < MAX_PLY,
            window_ok(alpha as int, beta as int),
            -1000 <= depth <= 1000 + ply,
            depth_modifier == check_extension(board@, ply as int),
            depth + depth_modifier > 0,
        ensures
            final(self).wf(),
            final(self)@.repetition == old(self)@.repetition,
            ply > 0 ==> final(self)@.root_best_move == old(self)@.root_best_move
                && final(self)@.root_score == old(self)@.root_score,
            score_ok(r as int),
            expired ==> r == MIN_VAL && final(self)@ == old(self)@,
            !expired ==> (tt_verdict(
                old(self)@.tt[slot_of(board@.hash)],
                board@.hash,
                depth,
                alpha,
                beta,
                ply == 0,
            ) matches TtVerdict::Cutoff(s) ==> r == s && final(self)@ == old(self)@),
            !expired && tt_verdict(
                old(self)@.tt[slot_of(board@.hash)],
                board@.hash,
                depth,
                alpha,
                beta,
                ply == 0,
            ) is Window && ply > 0 && beta - alpha <= 1 && !board@.in_check && evaluation(board@)
                - 90 * depth > beta && depth < 8 ==> r == evaluation(board@) && final(self)@
                == old(self)@,
            ply == 0 && cacheable(r as int) ==> final(self)@.root_score == r
                && final(self)@.root_best_move.wf(),
        decreases MAX_PLY - ply, 3int,
    {
        if expired {
            return MIN_VAL;
        }
        let root: bool = ply == 0;
        let hash: u64 = board.hash();
        let in_check: bool = board.in_check();
        let pv_node: bool = beta as i64 - alpha as i64 > 1;
        let entry: TTEntry = self.transposition_table.probe(hash);
        proof {
            assert(cacheable(self@.tt[slot_of(hash)].score as int));
        }
        let tt_move: Move = entry.best_move;
        let (mut new_alpha, mut new_beta) = match tt_decision(entry, hash, depth, alpha, beta, root) {
            TtVerdict::Cutoff(s) => {
                return s;
            },
            TtVerdict::Window(a, b) => (a, b),
        };
        let mut can_fp: bool = false;
        if !pv_node && !in_check && !root {
            let stand_pat: i32 = pesto_evaluate_from_scratch(board);
            if stand_pat - 90 * depth > beta && depth < 8 {
                return stand_pat;
            }
            if stand_pat >= beta && depth > 3 && can_null {
                match board.null_move() {
                    Some(nulled) => {
                        let score: i32 = -self.pvs(
                            &nulled,
                            depth - 3,
                            -new_beta,
                            -new_beta + 1,
                            ply + 1,
                            start_time,
                            time_limit,
                            false,
                        );
                        if score >= beta {
                            return beta;
                        }
                    },
                    None => {},
                }
            }
            can_fp = stand_pat + 160 * depth < alpha && depth < 5;
        }
        let ghost rep0 = self@.repetition;
        let legal = board.legal_moves();
        let moves = self.ordered_moves(board, legal, tt_move, ply);
        let mut best_score: i32 = MIN_VAL;
        let mut best_move: Move = Move::null();
        let mut i: usize = 0;
        while i < moves.len()
            invariant_except_break
                window_ok(new_alpha as int, new_beta as int),
            invariant
                self.wf(),
                self@.repetition == rep0,
                rep0 == old(self)@.repetition,
                ply > 0 ==> self@.root_best_move == old(self)@.root_best_move
                    && self@.root_score == old(self)@.root_score,
                root == (ply == 0),
                root && cacheable(best_score as int) ==> self@.root_score == best_score
                    && self@.root_best_move.wf(),
                ply + 1 < MAX_PLY,
                -1000 <= depth <= 1000 + ply,
                0 < depth + depth_modifier,
                0 <= depth_modifier <= 1,
                forall|k: int| 0 <= k < moves@.len() ==> (#[trigger] moves@[k]).wf(),
                window_ok(alpha as int, beta as int),
                score_ok(best_score as int),
            decreases moves@.len() - i,
        {
            let m: Move = moves[i];
            let is_capture: bool = move_is_capture(board, &m);
            if can_fp && i > 4 && !is_capture {
                i = i + 1;
                continue;
            }
            let child = match board.play(m) {
                Some(child) => child,
                None => {
                    i = i + 1;
                    continue;
                },
            };
            self.threefold_repetition.push(child.hash());
            let mv_extension: i32 = if m.promotion == Some(Piece::Queen) {
                1
            } else {
                0
            };
            let search_depth: i32 = depth + depth_modifier + mv_extension - 1;
            let score: i32;
            if i == 0 {
                score = -self.pvs(
                    &child,
                    search_depth,
                    -new_beta,
                    -new_alpha,
                    ply + 1,
                    start_time,
                    time_limit,
                    can_null,
                );
            } else {
                let scout: i32 = -self.pvs(
                    &child,
                    search_depth,
                    -new_alpha - 1,
                    -new_alpha,
                    ply + 1,
                    start_time,
                    time_limit,
                    can_null,
                );
                if new_alpha < scout && scout < new_beta {
                    score = -self.pvs(
                        &child,
                        search_depth,
                        -new_beta,
                        -scout,
                        ply + 1,
                        start_time,
                        time_limit,
                        can_null,
                    );
                } else {
                    score = scout;
                }
            }
            self.threefold_repetition.pop();
            if score > best_score {
                best_score = score;
                best_move = m;
                if root && score != MIN_VAL && score != -MIN_VAL {
                    self.root_best_move = m;
                    self.root_score = score;
                }
            }
            if score > new_alpha {
                new_alpha = score;
            }
            if new_alpha >= new_beta {
                self.record_cutoff(board, &moves, i, can_fp, depth, ply);
                break;
            }
            i = i + 1;
        }
        self.store_result(hash, depth, best_score, best_move, alpha, beta);
        best_score
    }


    /// Searches the position by iterative deepening within a time budget
    /// in milliseconds, and returns the coordinate text of the best move
    /// found. Deepening starts while under a fortieth of the budget; a search
    /// in flight gives up past a tenth of it. The move is checked against the
    /// position's legal moves; one that is not among them is reported as an
    /// error. A budget under 40 ms starts no search, so the null move is
    /// reported.
    pub fn get_best_move(&mut self, board: &cozy_chess::Board, time_remaining: u64) -> (r: Result<
        String,
        IllegalRootMove,
    >)
        requires
            old(self).wf(),
        ensures
            final(self).wf(),
            final(self)@.repetition == old(self)@.repetition,
            match r {
                Ok(text) => final(self)@.root_best_move.wf() && text@ == move_text_of(
                    final(self)@.root_best_move,
                ),
                Err(e) => e.chosen == final(self)@.root_best_move,
            },
            time_remaining < 40 ==> r is Err && final(self)@.root_best_move == Move::null_spec()
                && final(self)@.tt == old(self)@.tt && final(self)@.killers == old(self)@.killers,
    {
        let start_time = clock::now();
        let hard_limit: u128 = (time_remaining / 10) as u128 * 1000000;
        let soft_limit: u128 = (time_remaining / 40) as u128 * 1000000;
        self.nodes = 0;
        self.root_best_move = Move::null();
        self.history_table = zeros(HISTORY_SIZE);
        let position = Position::from_board(board.clone());
        let mut state = Aspiration {
            depth: 1,
            window: ASPIRATION_WINDOW,
            alpha: MIN_VAL - 1,
            beta: -MIN_VAL + 1,
        };
        while clock::elapsed_nanos(&start_time) < soft_limit && state.depth < MAX_DEPTH
            invariant
                self.wf(),
                self@.repetition == old(self)@.repetition,
                soft_limit == (time_remaining / 40) as u128 * 1000000,
                time_remaining < 40 ==> self@.root_best_move == Move::null_spec() && self@.tt
                    == old(self)@.tt && self@.killers == old(self)@.killers,
                aspiration_ok(state),
                1 <= state.depth <= MAX_DEPTH,
                state.window == WINDOW_CAP ==> state.alpha == MIN_VAL - 1 && state.beta == -MIN_VAL
                    + 1,
            decreases MAX_DEPTH - state.depth, WINDOW_CAP - state.window,
        {
            let score: i32 = self.pvs(
                &position,
                state.depth,
                state.alpha,
                state.beta,
                0,
                &start_time,
                hard_limit,
                true,
            );
            state = aspiration_update(state, score);
        }
        let legal = position.legal_moves();
        match find_legal(self.root_best_move, &legal) {
            Some(m) => Ok(move_text(m)),
            None => Err(IllegalRootMove { chosen: self.root_best_move, depth_reached: state.depth - 1 }),
        }
    }
}

/// The move of `legal` equal to `chosen`, if there is one.
pub fn find_legal(chosen: Move, legal: &Vec<Move>) -> (r: Option<Move>)
    requires
        forall|k: int| 0 <= k < legal@.len() ==> (#[trigger] legal@[k]).wf(),
    ensures
        r is Some <==> legal@.contains(chosen),
        r is Some ==> r == Some(chosen) && chosen.wf(),
{
    let mut i: usize = 0;
    while i < legal.len()
        invariant
            i <= legal@.len(),
            forall|k: int| 0 <= k < legal@.len() ==> (#[trigger] legal@[k]).wf(),
            forall|k: int| 0 <= k < i ==> legal@[k] != chosen,
        decreases legal@.len() - i,
    {
        if legal[i] == chosen {
            return Some(legal[i]);
        }
        i = i + 1;
    }
    None
}

} // verus!