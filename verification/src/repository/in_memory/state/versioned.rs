//! One state in memory, with the number of times it was saved as its version.

use crate::decider::CloneKeepsView;
use crate::repository::event::Refusals;
use crate::repository::state::VersionedStateRepository;
use crate::repository::{RepositoryVersion, VersionDiff, VersionedRepositoryError};
use vstd::prelude::*;

verus! {

#[derive(Debug)]
pub enum Error {
    /// `Any` names no version to compare with.
    ExactStreamVersionMustBeKnown,
    /// The state was saved as often as a version can count.
    VersionExhausted,
}

/// The number that a version stands for: its own where it is exact, zero
/// where it only says whether there is a state, and none for `Any`.
pub open spec fn version_number(version: RepositoryVersion<usize>) -> Option<usize> {
    match version {
        RepositoryVersion::Exact(exact) => Some(exact),
        RepositoryVersion::NoStream => Some(0usize),
        RepositoryVersion::StreamExists => Some(0usize),
        RepositoryVersion::Any => None,
    }
}

/// Whether a writer who expects `incoming` may replace a state that stands
/// at `current`: `Any` accepts whatever is there, and every other version
/// must stand for the number that `current` stands for.
pub open spec fn accepts(incoming: RepositoryVersion<usize>, current: RepositoryVersion<usize>) -> bool {
    incoming is Any || (version_number(current) is Some && version_number(incoming)
        == version_number(current))
}

struct VersionedState<State> {
    data: State,
    version: RepositoryVersion<usize>,
}

impl<State> VersionedState<State> {
    fn new(data: State) -> (versioned: Self)
        ensures
            versioned.data == data,
            versioned.version == RepositoryVersion::<usize>::StreamExists,
    {
        Self { data, version: RepositoryVersion::StreamExists }
    }
}

/// One state, with its version, in memory.
pub struct InMemoryStateRepository<State> {
    state: VersionedState<State>,
    refused: Ghost<nat>,
}

impl<State: CloneKeepsView> InMemoryStateRepository<State> {
    /// A repository that holds `state`, which was never saved yet.
    pub fn new(state: State) -> (repository: Self)
        ensures
            repository.inv(),
            repository.state() == state@,
            repository.version() == RepositoryVersion::<usize>::StreamExists,
            repository.refusals().count == 0,
    {
        Self { state: VersionedState::new(state), refused: Ghost(0) }
    }

    fn version_to_usize(version: &RepositoryVersion<usize>) -> (res: Result<
        usize,
        VersionedRepositoryError<Error, usize>,
    >)
        ensures
            match res {
                Ok(number) => version_number(*version) == Some(number),
                Err(VersionedRepositoryError::RepoErr(Error::ExactStreamVersionMustBeKnown)) =>
                    version_number(*version) is None,
                Err(_) => false,
            },
    {
        match version {
            RepositoryVersion::Exact(exact) => Ok(*exact),
            RepositoryVersion::NoStream => Ok(0),
            RepositoryVersion::StreamExists => Ok(0),
            RepositoryVersion::Any => Err(
                VersionedRepositoryError::RepoErr(Error::ExactStreamVersionMustBeKnown),
            ),
        }
    }

    /// Whether a writer who expects `incoming` may replace a state that
    /// stands at `current`: `Any` accepts whatever is there, and every other
    /// version must stand for the number that `current` stands for.
    fn version_check(current: &RepositoryVersion<usize>, incoming: &RepositoryVersion<usize>) -> (res:
        Result<(), VersionedRepositoryError<Error, usize>>)
        ensures
            match res {
                Ok(_) => accepts(*incoming, *current),
                Err(VersionedRepositoryError::RepoErr(Error::ExactStreamVersionMustBeKnown)) =>
                    !(*incoming is Any) && version_number(*current) is None,
                Err(VersionedRepositoryError::VersionConflict(diff)) => {
                    &&& !accepts(*incoming, *current)
                    &&& version_number(*current) is Some
                    &&& diff.spec_expected() == *incoming
                    &&& diff.spec_actual() == *current
                },
                Err(_) => false,
            },
    {
        match incoming {
            RepositoryVersion::Any => {
                return Ok(());
            },
            _ => {},
        }
        let current_number = match Self::version_to_usize(current) {
            Ok(number) => number,
            Err(e) => {
                return Err(e);
            },
        };
        let incoming_number = match Self::version_to_usize(incoming) {
            Ok(number) => number,
            Err(e) => {
                return Err(e);
            },
        };
        if current_number == incoming_number {
            Ok(())
        } else {
            Err(VersionedRepositoryError::VersionConflict(VersionDiff::new(*incoming, *current)))
        }
    }

    /// The version that follows `version`.
    fn bump_version(version: &RepositoryVersion<usize>) -> (res: Result<
        RepositoryVersion<usize>,
        VersionedRepositoryError<Error, usize>,
    >)
        ensures
            match res {
                Ok(next) => version_number(*version) matches Some(number) && number < usize::MAX
                    && next == RepositoryVersion::Exact((number + 1) as usize),
                Err(VersionedRepositoryError::RepoErr(Error::ExactStreamVersionMustBeKnown)) =>
                    version_number(*version) is None,
                Err(VersionedRepositoryError::RepoErr(Error::VersionExhausted)) => version_number(
                    *version,
                ) == Some(usize::MAX),
                Err(_) => false,
            },
    {
        let number = match Self::version_to_usize(version) {
            Ok(number) => number,
            Err(e) => {
                return Err(e);
            },
        };
        match number.checked_add(1) {
            Some(next) => Ok(RepositoryVersion::Exact(next)),
            None => Err(VersionedRepositoryError::RepoErr(Error::VersionExhausted)),
        }
    }
}

impl<State: CloneKeepsView> VersionedStateRepository<State, Error> for InMemoryStateRepository<
    State,
> {
    type Version = usize;

    closed spec fn inv(&self) -> bool {
        version_number(self.state.version) is Some
    }

    /// The repository accepts a save as long as a version can count it.
    open spec fn reliable(&self) -> bool {
        version_number(self.version()) matches Some(number) && number < usize::MAX
    }

    closed spec fn state(&self) -> State::V {
        self.state.data@
    }

    closed spec fn refusals(&self) -> Refusals {
        Refusals { count: self.refused@ }
    }

    closed spec fn version(&self) -> RepositoryVersion<usize> {
        self.state.version
    }

    fn reify(&self) -> (res: Result<(State, RepositoryVersion<usize>), Error>)
        ensures
            res is Ok,
            version_number(self.version()) is Some,
    {
        let copy = self.state.data.clone();
        proof {
            State::lemma_clone_keeps_view(self.state.data, copy);
        }
        Ok((copy, self.state.version))
    }

    fn save(&mut self, version: &RepositoryVersion<usize>, state: &State) -> (res: Result<
        State,
        VersionedRepositoryError<Error, usize>,
    >)
        ensures
            version_number(old(self).version()) is Some,
            match res {
                Ok(_) => {
                    &&& accepts(*version, old(self).version())
                    &&& version_number(old(self).version())->Some_0 < usize::MAX
                    &&& final(self).version() == RepositoryVersion::Exact(
                        (version_number(old(self).version())->Some_0 + 1) as usize,
                    )
                },
                Err(VersionedRepositoryError::VersionConflict(_)) => !accepts(
                    *version,
                    old(self).version(),
                ),
                Err(VersionedRepositoryError::RepoErr(Error::ExactStreamVersionMustBeKnown)) =>
                    false,
                Err(VersionedRepositoryError::RepoErr(Error::VersionExhausted)) => {
                    &&& accepts(*version, old(self).version())
                    &&& version_number(old(self).version()) == Some(usize::MAX)
                    &&& final(self).state() == old(self).state()
                    &&& final(self).version() == old(self).version()
                },
            },
    {
        match Self::version_check(&self.state.version, version) {
            Ok(_) => {},
            Err(e) => {
                proof {
                    if e is VersionConflict {
                        self.refused@ = self.refused@ + 1;
                    }
                }
                return Err(e);
            },
        }
        let next = match Self::bump_version(&self.state.version) {
            Ok(next) => next,
            Err(e) => {
                return Err(e);
            },
        };
        let kept = state.clone();
        let saved = state.clone();
        proof {
            State::lemma_clone_keeps_view(*state, kept);
            State::lemma_clone_keeps_view(*state, saved);
        }
        self.state.data = kept;
        self.state.version = next;
        Ok(saved)
    }
}

} // verus!
