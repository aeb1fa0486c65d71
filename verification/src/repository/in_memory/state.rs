//! States kept in memory.

pub mod versioned;
