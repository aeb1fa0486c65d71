//! Repositories in memory whose streams stand at the number of their events.

use crate::decider::{lemma_views_concat, views, Event};
use crate::repository::event::{
    stream_key, EventRepository, Logs, VersionedEventRepositoryWithStreams,
};
use crate::repository::in_memory::versioned_with_streams::{version_of_len, InMemoryEventRepository};
use crate::repository::in_memory::{clone_events, InMemoryEventRepositoryState};
use crate::repository::{RepositoryVersion, VersionedRepositoryError};
use vstd::prelude::*;

verus! {

/// The error of a log in memory, which never fails: no function hands it out.
#[derive(Debug)]
pub enum SimpleInMemoryError {
    Failed,
}

/// The error of a log in memory, which never fails: no function hands it out.
#[derive(Debug)]
pub enum InMemoryEventRepositoryError {
    Failed,
}

/// The error of a state in memory, which never fails: no function hands it out.
#[derive(Debug)]
pub enum InMemoryStateRepositoryError {
    Failed,
}

/// One log of events in memory.
pub struct SimpleInMemoryEventRepository<E: Event> {
    state: InMemoryEventRepositoryState<E>,
}

impl<E: Event> SimpleInMemoryEventRepository<E> {
    /// A log without events.
    pub fn new() -> (repository: Self)
        ensures
            repository.events() == Seq::<E::V>::empty(),
    {
        let repository = Self { state: InMemoryEventRepositoryState::new() };
        proof {
            assert(views(repository.state.events@) =~= Seq::<E::V>::empty());
        }
        repository
    }
}

impl<E: Event> EventRepository<E, SimpleInMemoryError> for SimpleInMemoryEventRepository<E> {
    closed spec fn events(&self) -> Seq<E::V> {
        views(self.state.events@)
    }

    fn load(&self) -> (res: Result<Vec<E>, SimpleInMemoryError>)
        ensures
            res is Ok,
    {
        let events = clone_events(&self.state.events, 0);
        proof {
            assert(views(self.state.events@).skip(0) =~= views(self.state.events@));
        }
        Ok(events)
    }

    fn append(&mut self, events: &Vec<E>) -> (res: Result<Vec<E>, SimpleInMemoryError>)
        ensures
            res is Ok,
    {
        let mut copies = clone_events(events, 0);
        let appended = clone_events(events, 0);
        proof {
            assert(views(events@).skip(0) =~= views(events@));
            lemma_views_concat(self.state.events@, copies@);
        }
        self.state.events.append(&mut copies);
        self.state.position = self.state.events.len();
        Ok(appended)
    }
}

/// The version of a stream: the number of its events.
#[derive(Debug, Clone, Copy, PartialEq, Eq, Structural)]
pub enum InMemoryStreamVersion {
    /// No claim is made.
    Any,
    /// The stream holds this many events; a stream that does not exist holds none.
    Exact(usize),
}

#[derive(Debug)]
pub enum StreamedVersionedInMemoryEventRepositoryError {
    /// The stream did not hold the number of events that the writer expected.
    VersionConflict,
}

/// Whether a writer who expects `version` may append to a stream of `len` events.
pub open spec fn count_admits(version: InMemoryStreamVersion, len: nat) -> bool {
    match version {
        InMemoryStreamVersion::Any => true,
        InMemoryStreamVersion::Exact(count) => count == len,
    }
}

/// The number of events that a read of what follows `version` passes over
/// in a stream of `len` events.
pub open spec fn count_passed(version: InMemoryStreamVersion, len: nat) -> nat {
    match version {
        InMemoryStreamVersion::Any => 0,
        InMemoryStreamVersion::Exact(count) => if count <= len {
            count as nat
        } else {
            len
        },
    }
}

/// Streams of events in memory, each at the number of its events, and the
/// category that holds the events of all of them.
pub struct StreamedVersionedInMemoryEventRepository<E: Event> {
    streams: InMemoryEventRepository<E>,
}

impl<E: Event> StreamedVersionedInMemoryEventRepository<E> {
    /// What holds of every repository that callers can reach.
    pub closed spec fn inv(&self) -> bool {
        self.streams.inv()
    }

    /// What the repository holds.
    pub closed spec fn logs(&self) -> Logs<E::V, usize> {
        self.streams.logs()
    }

    /// A repository without events, for the category `stream_name`.
    pub fn new(stream_name: &str) -> (repository: Self)
        ensures
            repository.inv(),
            repository.logs().streams == Map::<
                Seq<char>,
                crate::repository::event::Log<E::V, usize>,
            >::empty(),
            repository.logs().category.events == Seq::<E::V>::empty(),
    {
        Self { streams: InMemoryEventRepository::new(stream_name) }
    }

    /// The guard of the streams below for a number of events.
    fn guard_of(version: &InMemoryStreamVersion) -> (guard: RepositoryVersion<usize>)
        ensures
            forall|len: nat|
                len <= usize::MAX ==> (#[trigger] guard.admits(version_of_len(len))
                    <==> count_admits(*version, len)),
            forall|len: nat|
                len <= usize::MAX ==> #[trigger] crate::repository::in_memory::versioned_with_streams::reached(
                    guard,
                    len,
                ) == count_passed(*version, len),
    {
        match version {
            InMemoryStreamVersion::Any => RepositoryVersion::Any,
            InMemoryStreamVersion::Exact(count) => if *count == 0 {
                RepositoryVersion::NoStream
            } else {
                RepositoryVersion::Exact(*count - 1)
            },
        }
    }

    /// All events of a stream, or of the category, and their number.
    pub fn load(&self, id: Option<&String>) -> (res: Result<
        (Vec<E>, InMemoryStreamVersion),
        StreamedVersionedInMemoryEventRepositoryError,
    >)
        requires
            self.inv(),
        ensures
            res matches Ok((events, version)) && views(events@) == self.logs().events(
                stream_key(id),
            ) && version == InMemoryStreamVersion::Exact(events@.len() as usize),
    {
        self.load_from_version(&InMemoryStreamVersion::Any, id)
    }

    /// The events of a stream, or of the category, that follow the first
    /// `version` of them, and the number of all of them.
    pub fn load_from_version(&self, version: &InMemoryStreamVersion, id: Option<&String>) -> (res:
        Result<(Vec<E>, InMemoryStreamVersion), StreamedVersionedInMemoryEventRepositoryError>)
        requires
            self.inv(),
        ensures
            res matches Ok((events, count)) && {
                let log = self.logs().events(stream_key(id));
                &&& views(events@) == log.skip(count_passed(*version, log.len()) as int)
                &&& count == InMemoryStreamVersion::Exact(log.len() as usize)
                &&& log.len() <= usize::MAX
            },
    {
        proof {
            self.streams.lemma_versions_follow_lengths(stream_key(id));
        }
        let guard = Self::guard_of(version);
        match self.streams.load_from_version(&guard, id) {
            Ok((events, last)) => {
                let count = match last {
                    RepositoryVersion::Exact(index) => index + 1,
                    _ => 0,
                };
                Ok((events, InMemoryStreamVersion::Exact(count)))
            },
            Err(_) => Err(StreamedVersionedInMemoryEventRepositoryError::VersionConflict),
        }
    }

    /// Adds the batch `events` at the end of `stream` if the stream holds
    /// the number of events that `version` names. Either the whole batch is
    /// written, in order and in one piece, or nothing is.
    pub fn append(&mut self, version: &InMemoryStreamVersion, stream: &String, events: &Vec<E>) -> (res:
        Result<(Vec<E>, InMemoryStreamVersion), StreamedVersionedInMemoryEventRepositoryError>)
        requires
            old(self).inv(),
            events@.len() > 0,
        ensures
            final(self).inv(),
            res is Ok <==> count_admits(*version, old(self).logs().events(Some(stream@)).len()),
            match res {
                Ok((appended, count)) => {
                    &&& views(appended@) == views(events@)
                    &&& old(self).logs().appended(final(self).logs(), stream@, views(events@))
                    &&& count == InMemoryStreamVersion::Exact(
                        final(self).logs().events(Some(stream@)).len() as usize,
                    )
                    &&& final(self).logs().events(Some(stream@)).len() <= usize::MAX
                },
                Err(_) => final(self).logs() == old(self).logs(),
            },
    {
        proof {
            self.streams.lemma_versions_follow_lengths(Some(stream@));
        }
        let guard = Self::guard_of(version);
        match self.streams.append(&guard, stream, events) {
            Ok((appended, last)) => {
                proof {
                    self.streams.lemma_versions_follow_lengths(Some(stream@));
                }
                let count = match last {
                    RepositoryVersion::Exact(index) => index + 1,
                    _ => 0,
                };
                Ok((appended, InMemoryStreamVersion::Exact(count)))
            },
            Err(_) => Err(StreamedVersionedInMemoryEventRepositoryError::VersionConflict),
        }
    }
}

} // verus!
