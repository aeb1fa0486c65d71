//! Repositories that keep what they hold in memory.

use crate::decider::{views, CloneKeepsView, Event};
use vstd::prelude::*;

pub mod simple;
pub mod state;
pub mod versioned_with_streams;

verus! {

/// The events of one stream, and the position of the last one.
#[derive(Debug)]
pub struct InMemoryEventRepositoryState<E> {
    pub events: Vec<E>,
    pub position: usize,
}

impl<E> InMemoryEventRepositoryState<E> {
    /// A stream without events.
    pub fn new() -> (state: Self)
        ensures
            state.events@.len() == 0,
            state.position == 0,
    {
        InMemoryEventRepositoryState { events: Vec::new(), position: 0 }
    }
}

/// Clones of the events from the index `start` on, in order.
pub fn clone_events<E: Event>(events: &Vec<E>, start: usize) -> (copies: Vec<E>)
    requires
        start <= events@.len(),
    ensures
        copies@.len() == events@.len() - start,
        views(copies@) == views(events@).skip(start as int),
{
    let mut copies: Vec<E> = Vec::new();
    let mut i: usize = start;
    while i < events.len()
        invariant
            start <= i <= events@.len(),
            copies@.len() == i - start,
            forall|k: int| 0 <= k < copies@.len() ==> (#[trigger] copies@[k])@ == events@[start + k]@,
        decreases events@.len() - i,
    {
        let copy = events[i].clone();
        proof {
            E::lemma_clone_keeps_view(events@[i as int], copy);
        }
        copies.push(copy);
        i = i + 1;
    }
    proof {
        assert(views(copies@) =~= views(events@).skip(start as int));
    }
    copies
}

} // verus!
