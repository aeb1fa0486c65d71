//! The dependencies of the user decider: the sequence of user ids.

use std::sync::atomic::{AtomicUsize, Ordering};
use vstd::prelude::*;

verus! {

/// An id that the sequence gave out.
#[derive(Debug, PartialEq, Eq)]
pub struct IdGen(pub usize);

/// The sequence of the ids of new users. It starts at 1, and every id is
/// given out once, to whoever asks first.
pub struct UserDeciderCtx {
    id_sequence: AtomicUsize,
}

impl UserDeciderCtx {
    pub fn new() -> Self {
        Self { id_sequence: AtomicUsize::new(1) }
    }

    /// The id that the next new user gets.
    pub fn current(&self) -> usize {
        self.id_sequence.load(Ordering::SeqCst)
    }

    /// Takes the next id out of the sequence.
    pub fn pull(&self) -> IdGen {
        IdGen(self.id_sequence.fetch_add(1, Ordering::SeqCst))
    }
}

} // verus!
