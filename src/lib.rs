//! A time-bounded chess search engine: a tapered evaluator, a transposition
//! table, move ordering and a principal-variation search driven by
//! iterative deepening.
pub mod board;
mod clock;
pub mod evaluation;
pub mod ordering;
pub mod search;
pub mod tables;
pub mod tt;
