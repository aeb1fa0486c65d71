//! What a repository on EventStoreDB decides between its calls to the
//! database: how streams are named, how versions go to revisions and back,
//! which version a read ends at, and what a failed call means.

use crate::repository::event::stream_key;
use crate::repository::{RepositoryVersion, VersionDiff, VersionedRepositoryError};
use error::Error;
use vstd::prelude::*;

pub mod error;

verus! {

/// The revision that a writer expects of a stream, as EventStoreDB takes it.
#[derive(Debug, Clone, Copy, PartialEq, Eq, Structural)]
pub enum ExpectedRevision {
    Any,
    StreamExists,
    NoStream,
    Exact(u64),
}

/// Where a read of a stream starts, as EventStoreDB takes it.
#[derive(Debug, Clone, Copy, PartialEq, Eq, Structural)]
pub enum StreamPosition {
    Start,
    End,
    Position(u64),
}

/// The revision at which EventStoreDB found a stream.
#[derive(Debug, Clone, Copy, PartialEq, Eq, Structural)]
pub enum CurrentRevision {
    /// The number of the last event.
    Current(usize),
    NoStream,
}

/// The name of a stream of the category `stream_name` (`Some`), or of the
/// projection that holds the events of the whole category (`None`).
pub open spec fn spec_stream_name(stream_name: Seq<char>, stream_id: Option<Seq<char>>) -> Seq<char> {
    match stream_id {
        Some(id) => stream_name + seq!['-'] + id,
        None => seq!['$', 'c', 'e', '-'] + stream_name,
    }
}

/// The name under which EventStoreDB keeps a stream of the category
/// `stream_name`, or the category itself.
pub fn get_stream(stream_name: &str, stream_id: Option<&String>) -> (name: String)
    ensures
        name@ == spec_stream_name(stream_name@, stream_key(stream_id)),
{
    proof {
        reveal_strlit("-");
        reveal_strlit("$ce-");
        assert("-"@ =~= seq!['-']);
        assert("$ce-"@ =~= seq!['$', 'c', 'e', '-']);
    }
    match stream_id {
        Some(id) => {
            let name = String::from_str(stream_name);
            let name = name.concat("-");
            name.concat(id.as_str())
        },
        None => {
            let name = String::from_str("$ce-");
            name.concat(stream_name)
        },
    }
}

/// Where a read of what follows `version` starts: behind the event of an
/// exact version, which is itself left out, and else at the start of the
/// stream. Behind the last revision that there can be lies the end.
pub open spec fn spec_position_after(version: RepositoryVersion<usize>) -> StreamPosition {
    match version {
        RepositoryVersion::Exact(exact) => if exact < u64::MAX {
            StreamPosition::Position((exact + 1) as u64)
        } else {
            StreamPosition::End
        },
        _ => StreamPosition::Start,
    }
}

/// Where a read of what follows `version` starts.
pub fn version_to_esdb_position(version: &RepositoryVersion<usize>) -> (position: StreamPosition)
    ensures
        position == spec_position_after(*version),
{
    match version {
        RepositoryVersion::Exact(exact) => {
            let at: u64 = *exact as u64;
            if at < u64::MAX {
                StreamPosition::Position(at + 1)
            } else {
                StreamPosition::End
            }
        },
        _ => StreamPosition::Start,
    }
}

/// The revision that EventStoreDB is to expect for `version`: every guard
/// is kept as it is.
pub fn version_to_expected_revision(version: &RepositoryVersion<usize>) -> (revision:
    ExpectedRevision)
    ensures
        revision == match *version {
            RepositoryVersion::Any => ExpectedRevision::Any,
            RepositoryVersion::Exact(exact) => ExpectedRevision::Exact(exact as u64),
            RepositoryVersion::NoStream => ExpectedRevision::NoStream,
            RepositoryVersion::StreamExists => ExpectedRevision::StreamExists,
        },
{
    match version {
        RepositoryVersion::Any => ExpectedRevision::Any,
        RepositoryVersion::Exact(exact) => ExpectedRevision::Exact(*exact as u64),
        RepositoryVersion::NoStream => ExpectedRevision::NoStream,
        RepositoryVersion::StreamExists => ExpectedRevision::StreamExists,
    }
}

/// The version of a stream that EventStoreDB found at `revision`.
pub fn current_revision_to_version(revision: &CurrentRevision) -> (version: RepositoryVersion<usize>)
    ensures
        version == match *revision {
            CurrentRevision::Current(number) => RepositoryVersion::Exact(number),
            CurrentRevision::NoStream => RepositoryVersion::NoStream,
        },
{
    match revision {
        CurrentRevision::Current(number) => RepositoryVersion::Exact(*number),
        CurrentRevision::NoStream => RepositoryVersion::NoStream,
    }
}

/// One event as a read of EventStoreDB resolved it: the revision of the
/// event, and the event itself if the record held one that could be read.
pub struct ResolvedEntry<E> {
    pub revision: usize,
    pub event: Option<E>,
}

/// The events that the entries hold, in the order of the entries.
pub open spec fn held<E>(entries: Seq<ResolvedEntry<E>>) -> Seq<E>
    decreases entries.len(),
{
    if entries.len() == 0 {
        Seq::empty()
    } else {
        match entries.last().event {
            Some(event) => held(entries.drop_last()).push(event),
            None => held(entries.drop_last()),
        }
    }
}

/// The version at which a read of what follows `after` ends: the revision
/// of the last entry, whether it held an event or not. Where there is no
/// entry, the stream still stands at `after` if that is exact, and else all
/// that is known is that the stream exists.
pub open spec fn read_version<E>(
    after: RepositoryVersion<usize>,
    entries: Seq<ResolvedEntry<E>>,
) -> RepositoryVersion<usize> {
    if entries.len() == 0 {
        match after {
            RepositoryVersion::Exact(exact) => RepositoryVersion::Exact(exact),
            _ => RepositoryVersion::StreamExists,
        }
    } else {
        RepositoryVersion::Exact(entries.last().revision)
    }
}

/// The events of a read of what follows `after`, and the version at which
/// it ends. Records that held no event that could be read are passed over.
pub fn collect_resolved<E>(after: &RepositoryVersion<usize>, entries: Vec<ResolvedEntry<E>>) -> (read:
    (Vec<E>, RepositoryVersion<usize>))
    ensures
        read.0@ == held(entries@),
        read.1 == read_version(*after, entries@),
{
    let ghost all = entries@;
    let mut rv: Vec<E> = Vec::new();
    let mut pos: RepositoryVersion<usize> = match after {
        RepositoryVersion::Exact(exact) => RepositoryVersion::Exact(*exact),
        _ => RepositoryVersion::StreamExists,
    };
    for entry in it: entries
        invariant
            all == it.seq(),
            rv@ == held(all.take(it.index() as int)),
            pos == read_version(*after, all.take(it.index() as int)),
    {
        proof {
            let n = it.index() as int;
            assert(all.take(n + 1).drop_last() =~= all.take(n));
            assert(all.take(n + 1).last() == entry);
        }
        pos = RepositoryVersion::Exact(entry.revision);
        match entry.event {
            Some(event) => {
                rv.push(event);
            },
            None => {},
        }
    }
    proof {
        assert(all.take(all.len() as int) =~= all);
    }
    (rv, pos)
}

/// What a failed read comes to, given whether the client reports that the
/// stream does not exist: a stream that does not exist has no events and
/// stands at `NoStream`; every other failure is an error of the repository.
pub fn read_failure<E, ClientErr, JsonErr>(missing: bool, e: ClientErr) -> (res: Result<
    (Vec<E>, RepositoryVersion<usize>),
    VersionedRepositoryError<Error<ClientErr, JsonErr>, usize>,
>)
    ensures
        match res {
            Ok((events, version)) => missing && events@.len() == 0 && version is NoStream,
            Err(error) => !missing && error == VersionedRepositoryError::<
                Error<ClientErr, JsonErr>,
                usize,
            >::RepoErr(Error::ReadStream(e)),
        },
{
    if missing {
        Ok((Vec::new(), RepositoryVersion::NoStream))
    } else {
        Err(VersionedRepositoryError::RepoErr(Error::ReadStream(e)))
    }
}

/// What a failed append that expected `version` comes to, given the
/// revision at which the client found the stream, if it reports one: a
/// version conflict with what was found, and else an error of the
/// repository that names the stream.
pub fn append_failure<ClientErr, JsonErr>(
    version: &RepositoryVersion<usize>,
    stream: &String,
    found: Option<CurrentRevision>,
    e: ClientErr,
) -> (error: VersionedRepositoryError<Error<ClientErr, JsonErr>, usize>)
    ensures
        match found {
            Some(current) => error matches VersionedRepositoryError::VersionConflict(diff)
                && diff.spec_expected() == *version && diff.spec_actual() == match current {
                CurrentRevision::Current(number) => RepositoryVersion::Exact(number),
                CurrentRevision::NoStream => RepositoryVersion::NoStream,
            },
            None => error matches VersionedRepositoryError::RepoErr(Error::WriteStream(name, cause))
                && name@ == stream@ && cause == e,
        },
{
    match found {
        Some(current) => VersionedRepositoryError::VersionConflict(
            VersionDiff::new(*version, current_revision_to_version(&current)),
        ),
        None => VersionedRepositoryError::RepoErr(Error::WriteStream(stream.clone(), e)),
    }
}

} // verus!
