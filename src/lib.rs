//! A guided tour of everyday Rust constructs, each one written as verified code:
//! integer ranges, branching and loops, borrowing, records, traits, lookups and
//! iterator-style pipelines.

pub mod borrowing;
pub mod flow;
pub mod math;
pub mod numbers;
pub mod records;
pub mod summary;
pub mod sequences;
