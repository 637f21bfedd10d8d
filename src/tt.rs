//! The transposition table: a fixed array of entries indexed by the
//! position hash modulo its capacity, overwritten on every store.
use crate::board::Move;
use vstd::prelude::*;

verus! {

/// The number of slots: 2 to the 22nd.
pub const TT_SIZE: usize = 4194304;

/// How a stored score bounds the true score of its node.
#[derive(Clone, Copy, PartialEq, Eq, Structural, Debug)]
pub enum NodeType {
    Exact,
    LowerBound,
    UpperBound,
}

#[derive(Clone, Copy, PartialEq, Eq, Structural, Debug)]
pub struct TTEntry {
    pub hash: u64,
    pub depth: i32,
    pub score: i32,
    pub best_move: Move,
    pub node_type: NodeType,
}

impl TTEntry {
    /// The entry that fills every slot of a new table.
    pub open spec fn empty_spec() -> TTEntry {
        TTEntry {
            hash: 0,
            depth: 0,
            score: 0,
            best_move: Move::null_spec(),
            node_type: NodeType::Exact,
        }
    }

    pub fn empty() -> (r: TTEntry)
        ensures
            r == TTEntry::empty_spec(),
    {
        TTEntry { hash: 0, depth: 0, score: 0, best_move: Move::null(), node_type: NodeType::Exact }
    }
}

/// The slot of a hash.
pub open spec fn slot_of(hash: u64) -> int {
    hash as int % TT_SIZE as int
}

/// The entry for `hash`, if its slot holds one stored under that very hash.
pub open spec fn lookup(slots: Seq<TTEntry>, hash: u64) -> Option<TTEntry> {
    if slots[slot_of(hash)].hash == hash {
        Some(slots[slot_of(hash)])
    } else {
        None
    }
}

pub struct TranspositionTable {
    entries: Vec<TTEntry>,
}

impl View for TranspositionTable {
    type V = Seq<TTEntry>;

    closed spec fn view(&self) -> Seq<TTEntry> {
        self.entries@
    }
}

impl TranspositionTable {
    /// A table whose every slot holds the empty entry.
    pub fn new() -> (r: TranspositionTable)
        ensures
            r@.len() == TT_SIZE,
            forall|i: int| 0 <= i < TT_SIZE ==> #[trigger] r@[i] == TTEntry::empty_spec(),
    {
        let mut entries: Vec<TTEntry> = Vec::new();
        let mut i: usize = 0;
        while i < TT_SIZE
            invariant
                i <= TT_SIZE,
                entries@.len() == i,
                forall|k: int| 0 <= k < i ==> #[trigger] entries@[k] == TTEntry::empty_spec(),
            decreases TT_SIZE - i,
        {
            entries.push(TTEntry::empty());
            i = i + 1;
        }
        TranspositionTable { entries }
    }

    /// The entry in the slot of `hash`, whatever hash it was stored under.
    pub fn probe(&self, hash: u64) -> (r: TTEntry)
        requires
            self@.len() == TT_SIZE,
        ensures
            r == self@[slot_of(hash)],
    {
        self.entries[(hash % (TT_SIZE as u64)) as usize]
    }

    /// Overwrites the slot of the entry's hash with the entry.
    pub fn store(&mut self, entry: TTEntry)
        requires
            old(self)@.len() == TT_SIZE,
        ensures
            final(self)@ == old(self)@.update(slot_of(entry.hash), entry),
    {
        self.entries.set((entry.hash % (TT_SIZE as u64)) as usize, entry);
    }
}

/// Storing an entry and then looking up its hash, with no store in between,
/// gives back exactly that entry: its depth, score, bound and move.
pub proof fn lemma_store_then_probe(slots: Seq<TTEntry>, entry: TTEntry)
    requires
        slots.len() == TT_SIZE,
    ensures
        lookup(slots.update(slot_of(entry.hash), entry), entry.hash) == Some(entry),
{
}

} // verus!
