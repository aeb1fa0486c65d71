//! The event repositories that a backend offers, and the model that their
//! contracts are stated over.

use crate::decider::{views, Event};
use crate::repository::{RepositoryVersion, VersionedRepositoryError};
use vstd::prelude::*;

verus! {

/// One log of events, without versions.
pub trait EventRepository<E: Event, RepoErr> {
    /// The events that the repository holds, by their views, in append order.
    spec fn events(&self) -> Seq<E::V>;

    /// All events, in append order.
    fn load(&self) -> (res: Result<Vec<E>, RepoErr>)
        ensures
            res matches Ok(events) ==> views(events@) == self.events(),
    ;

    /// Adds `events` at the end of the log and hands them back.
    fn append(&mut self, events: &Vec<E>) -> (res: Result<Vec<E>, RepoErr>)
        ensures
            res matches Ok(appended) ==> {
                &&& views(appended@) == views(events@)
                &&& final(self).events() == old(self).events() + views(events@)
            },
    ;
}

/// One log of events with a version: a writer appends only if the log
/// stands at the version that the writer read.
pub trait VersionedEventRepository<E: Event, RepoErr> {
    type Version;

    /// All events, in append order, and the version at which the log stands.
    fn load(&self) -> Result<(Vec<E>, &Self::Version), RepoErr>;

    /// The events that were appended since the last read, and the version
    /// at which the log stands, if there is any event.
    fn load_from_version(&self) -> Result<(Vec<E>, Option<&Self::Version>), RepoErr>;

    /// Adds `events` at the end of the log if it stands at `version`, and
    /// hands them back with the version at which the log stands then.
    fn append(&mut self, version: &Self::Version, events: &Vec<E>) -> Result<
        (Vec<E>, Self::Version),
        RepoErr,
    >;
}

/// The events of one stream, in append order, and the version of the last one.
pub struct Log<T, V> {
    pub events: Seq<T>,
    pub version: RepositoryVersion<V>,
}

/// What a repository of many streams holds: each stream that exists, by its
/// id, and the category that holds the events of all of them.
#[verifier::ext_equal]
pub struct Logs<T, V> {
    pub streams: Map<Seq<char>, Log<T, V>>,
    pub category: Log<T, V>,
}

impl<T, V> Logs<T, V> {
    /// The events of a stream (`Some`), or of the category (`None`). A stream
    /// that does not exist has none.
    pub open spec fn events(self, id: Option<Seq<char>>) -> Seq<T> {
        match id {
            Some(stream) => if self.streams.contains_key(stream) {
                self.streams[stream].events
            } else {
                Seq::empty()
            },
            None => self.category.events,
        }
    }

    /// The version of a stream (`Some`), or of the category (`None`). A stream
    /// that does not exist stands at `NoStream`.
    pub open spec fn last_version(self, id: Option<Seq<char>>) -> RepositoryVersion<V> {
        match id {
            Some(stream) => if self.streams.contains_key(stream) {
                self.streams[stream].version
            } else {
                RepositoryVersion::NoStream
            },
            None => self.category.version,
        }
    }

    /// Whether `after` is `self` with `batch` added at the end of `stream`
    /// and at the end of the category: whole, in order, once, and nothing else.
    pub open spec fn appended(self, after: Self, stream: Seq<char>, batch: Seq<T>) -> bool {
        &&& after.streams.contains_key(stream)
        &&& after.streams == self.streams.insert(stream, after.streams[stream])
        &&& after.streams[stream].events == self.events(Some(stream)) + batch
        &&& after.category.events == self.category.events + batch
    }
}

/// One successful append: the stream that was written to, and the batch.
pub struct Append<T> {
    pub stream: Seq<char>,
    pub batch: Seq<T>,
}

/// The events that the appends of `history` add to the category: every
/// batch, whole, in the order of the appends.
pub open spec fn category_after<T>(history: Seq<Append<T>>) -> Seq<T>
    decreases history.len(),
{
    if history.len() == 0 {
        Seq::empty()
    } else {
        category_after(history.drop_last()) + history.last().batch
    }
}

/// The events that the appends of `history` add to `stream`: every batch
/// that was written to it, whole, in the order of the appends.
pub open spec fn stream_after<T>(history: Seq<Append<T>>, stream: Seq<char>) -> Seq<T>
    decreases history.len(),
{
    if history.len() == 0 {
        Seq::empty()
    } else if history.last().stream == stream {
        stream_after(history.drop_last(), stream) + history.last().batch
    } else {
        stream_after(history.drop_last(), stream)
    }
}

/// Whether the appends of `history`, one after the other, lead from `start` to `end`.
pub open spec fn leads_to<T, V>(start: Logs<T, V>, history: Seq<Append<T>>, end: Logs<T, V>) -> bool
    decreases history.len(),
{
    if history.len() == 0 {
        end == start
    } else {
        exists|before: Logs<T, V>|
            leads_to(start, history.drop_last(), before) && #[trigger] before.appended(
                end,
                history.last().stream,
                history.last().batch,
            )
    }
}

/// An append changes one stream and the category, and no other stream.
pub proof fn lemma_append_leaves_other_streams<T, V>(
    before: Logs<T, V>,
    after: Logs<T, V>,
    stream: Seq<char>,
    batch: Seq<T>,
    other: Seq<char>,
)
    requires
        before.appended(after, stream, batch),
        other != stream,
    ensures
        after.events(Some(other)) == before.events(Some(other)),
        after.last_version(Some(other)) == before.last_version(Some(other)),
{
}

/// What is committed is the batches of the appends, one after the other:
/// every batch stands whole and once at the end of what the category held
/// before it, and at the end of what its stream held before it, and in no
/// other stream. No batch is split, and no two are interleaved.
pub proof fn lemma_appends_are_serialized<T, V>(
    start: Logs<T, V>,
    history: Seq<Append<T>>,
    end: Logs<T, V>,
    stream: Seq<char>,
)
    requires
        leads_to(start, history, end),
    ensures
        end.events(None) == start.events(None) + category_after(history),
        end.events(Some(stream)) == start.events(Some(stream)) + stream_after(history, stream),
    decreases history.len(),
{
    if history.len() == 0 {
        assert(start.events(None) + category_after(history) =~= start.events(None));
        assert(start.events(Some(stream)) + stream_after(history, stream) =~= start.events(
            Some(stream),
        ));
    } else {
        let before = choose|before: Logs<T, V>|
            leads_to(start, history.drop_last(), before) && #[trigger] before.appended(
                end,
                history.last().stream,
                history.last().batch,
            );
        lemma_appends_are_serialized(start, history.drop_last(), before, stream);
        let last = history.last();
        assert(end.events(None) =~= start.events(None) + category_after(history));
        if last.stream == stream {
            assert(end.events(Some(stream)) =~= start.events(Some(stream)) + stream_after(
                history,
                stream,
            ));
        } else {
            lemma_append_leaves_other_streams(before, end, last.stream, last.batch, stream);
        }
    }
}

/// How often a repository has refused a write because what it holds did
/// not stand at the version that the writer expected.
pub struct Refusals {
    pub count: nat,
}

/// The count that follows `before` once a write was answered with `refused`
/// or not: one more for a refusal, and else the same.
pub open spec fn counted(before: Refusals, refused: bool) -> Refusals {
    if refused {
        Refusals { count: before.count + 1 }
    } else {
        before
    }
}

/// The stream (`Some`) or the category (`None`) that a read is about.
pub open spec fn stream_key(id: Option<&String>) -> Option<Seq<char>> {
    match id {
        Some(stream) => Some(stream@),
        None => None,
    }
}

/// Many streams of events, each with a version of its own, and the category
/// that holds the events of all of them.
///
/// The contract describes the repository as its one writer sees it. What a
/// repository answers is held to what it holds. Success is owed only by a
/// repository that calls itself reliable: any other may refuse any call.
pub trait VersionedEventRepositoryWithStreams<E: Event, RepoErr>: Sized {
    type Version: Copy;

    /// What holds of every repository that callers can reach.
    spec fn inv(&self) -> bool;

    /// Whether the repository answers every read, and accepts every append
    /// that its guard admits.
    spec fn reliable(&self) -> bool;

    /// What the repository holds.
    spec fn logs(&self) -> Logs<E::V, Self::Version>;

    /// How often the repository has answered an append with a version conflict.
    spec fn refusals(&self) -> Refusals;

    /// The order of the versions of one stream.
    spec fn version_lt(a: Self::Version, b: Self::Version) -> bool;

    /// All events of a stream, or of the category, with the version of the last one.
    fn load(&self, id: Option<&String>) -> (res: Result<
        (Vec<E>, RepositoryVersion<Self::Version>),
        VersionedRepositoryError<RepoErr, Self::Version>,
    >)
        requires
            self.inv(),
        ensures
            self.reliable() ==> res is Ok,
            res matches Ok((events, version)) ==> {
                &&& views(events@) == self.logs().events(stream_key(id))
                &&& version == self.logs().last_version(stream_key(id))
                &&& !(version is Any)
            },
    ;

    /// The events that follow `version`, which is itself left out, with the
    /// version of the last event of the stream.
    fn load_from_version(
        &self,
        version: &RepositoryVersion<Self::Version>,
        id: Option<&String>,
    ) -> (res: Result<
        (Vec<E>, RepositoryVersion<Self::Version>),
        VersionedRepositoryError<RepoErr, Self::Version>,
    >)
        requires
            self.inv(),
        ensures
            self.reliable() ==> res is Ok,
            res matches Ok((events, last)) ==> {
                let log = self.logs().events(stream_key(id));
                &&& events@.len() <= log.len()
                &&& views(events@) == log.skip(log.len() - events@.len())
                &&& last == self.logs().last_version(stream_key(id))
                &&& !(last is Any)
                &&& *version == self.logs().last_version(stream_key(id)) ==> events@.len() == 0
            },
    ;

    /// Adds the batch `events` at the end of `stream` if the stream stands at
    /// `version`. Either the whole batch is written, in order and in one
    /// piece, or nothing is.
    fn append(
        &mut self,
        version: &RepositoryVersion<Self::Version>,
        stream: &String,
        events: &Vec<E>,
    ) -> (res: Result<
        (Vec<E>, RepositoryVersion<Self::Version>),
        VersionedRepositoryError<RepoErr, Self::Version>,
    >)
        requires
            old(self).inv(),
            events@.len() > 0,
        ensures
            final(self).inv(),
            final(self).reliable() == old(self).reliable(),
            final(self).refusals() == counted(
                old(self).refusals(),
                res matches Err(VersionedRepositoryError::VersionConflict(_)),
            ),
            old(self).reliable() ==> (res is Ok <==> version.admits(
                old(self).logs().last_version(Some(stream@)),
            )) && !(res matches Err(VersionedRepositoryError::RepoErr(_))),
            match res {
                Ok((appended, new_version)) => {
                    &&& version.admits(old(self).logs().last_version(Some(stream@)))
                    &&& views(appended@) == views(events@)
                    &&& old(self).logs().appended(final(self).logs(), stream@, views(events@))
                    &&& new_version == final(self).logs().last_version(Some(stream@))
                    &&& new_version is Exact
                    &&& old(self).logs().last_version(Some(stream@)) matches RepositoryVersion::Exact(
                        before,
                    ) ==> Self::version_lt(before, new_version->Exact_0)
                },
                Err(VersionedRepositoryError::VersionConflict(diff)) => {
                    &&& final(self).logs() == old(self).logs()
                    &&& diff.spec_expected() == *version
                    &&& diff.spec_actual() == old(self).logs().last_version(Some(stream@))
                },
                Err(VersionedRepositoryError::RepoErr(_)) => true,
            },
    ;
}

} // verus!
