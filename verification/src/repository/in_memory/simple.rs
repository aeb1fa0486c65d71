//! One log of events and one state, kept in memory, without versions.

use crate::decider::{lemma_views_concat, views, CloneKeepsView, Event};
use crate::repository::event::EventRepository;
use crate::repository::in_memory::{clone_events, InMemoryEventRepositoryState};
use crate::repository::state::StateRepository;
use vstd::prelude::*;

verus! {

/// One log of events in memory.
pub struct InMemoryEventRepository<E: Event> {
    state: InMemoryEventRepositoryState<E>,
}

impl<E: Event> InMemoryEventRepository<E> {
    /// A log without events.
    pub fn new() -> (repository: Self)
        ensures
            repository.events() == Seq::<E::V>::empty(),
    {
        let repository = Self { state: InMemoryEventRepositoryState::new() };
        proof {
            assert(views(repository.state.events@) =~= Seq::<E::V>::empty());
        }
        repository
    }
}

impl<E: Event> EventRepository<E, ()> for InMemoryEventRepository<E> {
    closed spec fn events(&self) -> Seq<E::V> {
        views(self.state.events@)
    }

    fn load(&self) -> (res: Result<Vec<E>, ()>)
        ensures
            res is Ok,
    {
        let events = clone_events(&self.state.events, 0);
        proof {
            assert(views(self.state.events@).skip(0) =~= views(self.state.events@));
        }
        Ok(events)
    }

    fn append(&mut self, events: &Vec<E>) -> (res: Result<Vec<E>, ()>)
        ensures
            res is Ok,
    {
        let mut copies = clone_events(events, 0);
        let appended = clone_events(events, 0);
        proof {
            assert(views(events@).skip(0) =~= views(events@));
            lemma_views_concat(self.state.events@, copies@);
        }
        self.state.events.append(&mut copies);
        self.state.position = self.state.events.len();
        Ok(appended)
    }
}

/// One state in memory.
pub struct InMemoryStateRepository<State> {
    state: State,
}

impl<State: CloneKeepsView + Default> InMemoryStateRepository<State> {
    /// The state that the repository holds.
    pub closed spec fn held(&self) -> State {
        self.state
    }

    /// A repository that holds the default state.
    pub fn new() -> (repository: Self)
        ensures
            call_ensures(State::default, (), repository.held()),
            repository.state() == repository.held()@,
    {
        Self::default()
    }
}

impl<State: CloneKeepsView + Default> Default for InMemoryStateRepository<State> {
    fn default() -> (repository: Self)
        ensures
            call_ensures(State::default, (), repository.held()),
            repository.state() == repository.held()@,
    {
        Self { state: State::default() }
    }
}

impl<State: CloneKeepsView + Default> StateRepository<State, ()> for InMemoryStateRepository<
    State,
> {
    closed spec fn state(&self) -> State::V {
        self.state@
    }

    fn reify(&self) -> (res: Result<State, ()>)
        ensures
            res is Ok,
    {
        let copy = self.state.clone();
        proof {
            State::lemma_clone_keeps_view(self.state, copy);
        }
        Ok(copy)
    }

    fn save(&mut self, state: &State) -> (res: Result<State, ()>)
        ensures
            res is Ok,
    {
        let kept = state.clone();
        let saved = state.clone();
        proof {
            State::lemma_clone_keeps_view(*state, kept);
            State::lemma_clone_keeps_view(*state, saved);
        }
        self.state = kept;
        Ok(saved)
    }
}

} // verus!
