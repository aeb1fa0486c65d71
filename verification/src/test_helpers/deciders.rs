//! Deciders to try the library with.

pub mod user;
