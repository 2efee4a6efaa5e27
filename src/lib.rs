//! Guarded access to values: checked division, checked indexing, and an
//! immutable value that several holders share for reading.

pub mod arith;
pub mod indexing;
pub mod shared;
pub mod task;
