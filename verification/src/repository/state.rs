//! The state repositories that a backend offers: a state kept whole, in
//! place of the events that led to it.

use crate::repository::event::{counted, Refusals};
use crate::repository::{RepositoryVersion, VersionedRepositoryError};
use vstd::prelude::*;

verus! {

/// One state, without versions.
pub trait StateRepository<State: View, RepoErr> {
    /// The state that the repository holds, by its view.
    spec fn state(&self) -> State::V;

    /// The state that was saved last.
    fn reify(&self) -> (res: Result<State, RepoErr>)
        ensures
            res matches Ok(state) ==> state@ == self.state(),
    ;

    /// Puts `state` in the place of what the repository holds, and hands it back.
    fn save(&mut self, state: &State) -> (res: Result<State, RepoErr>)
        ensures
            res matches Ok(saved) ==> saved@ == state@ && final(self).state() == state@,
    ;
}

/// One state with a version: a writer replaces the state only if it stands
/// at the version that the writer read.
///
/// The contract describes the repository as its one writer sees it. Success
/// is owed only by a repository that calls itself reliable.
pub trait VersionedStateRepository<State: View, RepoErr> {
    type Version: Copy;

    /// What holds of every repository that callers can reach.
    spec fn inv(&self) -> bool;

    /// Whether the repository answers the next read, and accepts the next
    /// save at the version at which it stands.
    spec fn reliable(&self) -> bool;

    /// The state that the repository holds, by its view.
    spec fn state(&self) -> State::V;

    /// The version at which the state stands.
    spec fn version(&self) -> RepositoryVersion<Self::Version>;

    /// How often the repository has answered a save with a version conflict.
    spec fn refusals(&self) -> Refusals;

    /// The state that was saved last, and its version.
    fn reify(&self) -> (res: Result<(State, RepositoryVersion<Self::Version>), RepoErr>)
        requires
            self.inv(),
        ensures
            self.reliable() ==> res is Ok,
            res matches Ok((state, version)) ==> state@ == self.state() && version
                == self.version(),
    ;

    /// Puts `state` in the place of what the repository holds if that stands
    /// at `version`, and hands the state back. `Any` accepts whatever is
    /// there. A refused save changes nothing.
    fn save(&mut self, version: &RepositoryVersion<Self::Version>, state: &State) -> (res: Result<
        State,
        VersionedRepositoryError<RepoErr, Self::Version>,
    >)
        requires
            old(self).inv(),
        ensures
            final(self).inv(),
            final(self).refusals() == counted(
                old(self).refusals(),
                res matches Err(VersionedRepositoryError::VersionConflict(_)),
            ),
            old(self).reliable() && (*version == old(self).version() || *version is Any)
                ==> res is Ok,
            match res {
                Ok(saved) => saved@ == state@ && final(self).state() == state@,
                Err(VersionedRepositoryError::VersionConflict(diff)) => {
                    &&& final(self).state() == old(self).state()
                    &&& final(self).version() == old(self).version()
                    &&& final(self).reliable() == old(self).reliable()
                    &&& diff.spec_expected() == *version
                    &&& diff.spec_actual() == old(self).version()
                },
                Err(VersionedRepositoryError::RepoErr(_)) => true,
            },
    ;
}

/// A state that knows the stream it belongs to.
pub trait StateStream<T> {
    fn to_stream_id(&self) -> T;
}

/// The snapshots of many streams: for each stream the state that its events
/// stand for, with the version up to which they were folded.
pub trait VersionedStreamSnapshotRepository<State: StateStream<Self::StreamId>> {
    type Version;

    type StreamId;

    type RepoErr;

    /// The snapshot of a stream, and the version at which it was taken.
    fn reify(&self, stream: Option<Self::StreamId>) -> Result<
        (State, RepositoryVersion<Self::Version>),
        VersionedRepositoryError<Self::RepoErr, Self::Version>,
    >;

    /// Keeps `state` as the snapshot of its stream at `version`, and hands it back.
    fn save(&mut self, version: &Self::Version, state: &State) -> Result<
        State,
        VersionedRepositoryError<Self::RepoErr, Self::Version>,
    >;
}

} // verus!
