//! Versions of a stream, as a writer expects them and as a repository reports
//! them, and the errors and naming rules that all repositories share.

use crate::decider::Event;
use vstd::prelude::*;

pub mod esdb;
pub mod event;
pub mod in_memory;
pub mod redis;
pub mod state;

verus! {

/// A position in a stream: what a writer expects to find, or what a reader found.
#[derive(Debug, PartialEq, Eq, Structural)]
pub enum RepositoryVersion<V> {
    /// No claim is made: whatever is there is accepted.
    Any,
    /// The last event of the stream has this version.
    Exact(V),
    /// The stream does not exist.
    NoStream,
    /// The stream exists, at whatever version.
    StreamExists,
}

impl<V: Copy> Copy for RepositoryVersion<V> {

}

impl<V: Copy> Clone for RepositoryVersion<V> {
    fn clone(&self) -> (copy: Self)
        ensures
            copy == *self,
    {
        *self
    }
}

impl<V> RepositoryVersion<V> {
    /// Whether a stream that a repository reports at `self` exists.
    pub open spec fn exists_as_stream(self) -> bool {
        self is Exact || self is StreamExists
    }

    /// Whether a writer who expects `self` may append to a stream that stands
    /// at `observed`.
    pub open spec fn admits(self, observed: RepositoryVersion<V>) -> bool {
        match self {
            RepositoryVersion::Any => true,
            RepositoryVersion::Exact(v) => observed == RepositoryVersion::Exact(v),
            RepositoryVersion::NoStream => observed is NoStream,
            RepositoryVersion::StreamExists => observed.exists_as_stream(),
        }
    }
}

/// `Any` admits every state of a stream.
pub proof fn lemma_any_admits_all<V>(observed: RepositoryVersion<V>)
    ensures
        RepositoryVersion::<V>::Any.admits(observed),
{
}

/// `NoStream` and `StreamExists` never admit the same state of a stream, and
/// one of them admits each state that a repository reports of a stream.
pub proof fn lemma_existence_guards_exclusive<V>(observed: RepositoryVersion<V>)
    ensures
        !(RepositoryVersion::<V>::NoStream.admits(observed)
            && RepositoryVersion::<V>::StreamExists.admits(observed)),
        !(observed is Any) ==> (RepositoryVersion::<V>::NoStream.admits(observed)
            || RepositoryVersion::<V>::StreamExists.admits(observed)),
{
}

/// Two exact versions admit the same state only if they are the same version.
pub proof fn lemma_exact_admits_exact<V>(a: V, b: V)
    ensures
        RepositoryVersion::Exact(a).admits(RepositoryVersion::Exact(b)) <==> a == b,
{
}

/// The version that a writer expected, and the version that was found instead.
#[derive(Debug)]
pub struct VersionDiff<V> {
    expected: RepositoryVersion<V>,
    actual: RepositoryVersion<V>,
}

impl<V: Copy> VersionDiff<V> {
    /// The version that the writer expected.
    pub closed spec fn spec_expected(&self) -> RepositoryVersion<V> {
        self.expected
    }

    /// The version that the repository found.
    pub closed spec fn spec_actual(&self) -> RepositoryVersion<V> {
        self.actual
    }

    /// The difference between what a writer expected and what was found.
    pub fn new(expected: RepositoryVersion<V>, actual: RepositoryVersion<V>) -> (diff: Self)
        ensures
            diff.spec_expected() == expected,
            diff.spec_actual() == actual,
    {
        Self { expected, actual }
    }

    /// The version that the writer expected.
    #[verifier::when_used_as_spec(spec_expected)]
    pub fn expected(&self) -> (version: RepositoryVersion<V>)
        ensures
            version == self.spec_expected(),
    {
        self.expected
    }

    /// The version that the repository found.
    #[verifier::when_used_as_spec(spec_actual)]
    pub fn actual(&self) -> (version: RepositoryVersion<V>)
        ensures
            version == self.spec_actual(),
    {
        self.actual
    }
}

/// Why a versioned repository did not do what it was asked.
#[derive(Debug)]
pub enum VersionedRepositoryError<RepoErr, V> {
    /// The stream did not stand at the version that the writer expected.
    VersionConflict(VersionDiff<V>),
    /// The backend failed for a reason of its own.
    RepoErr(RepoErr),
}

/// A record in a store that holds the events of many streams in one
/// sequence, and that can tell which stream it belongs to.
pub trait WithFineGrainedStreamId {
    /// The id of the stream that the record belongs to.
    spec fn spec_fine_grained_id(&self) -> Seq<char>;

    /// The id of the stream that the record belongs to.
    fn to_fine_grained_id(&self) -> (id: String)
        ensures
            id@ == self.spec_fine_grained_id(),
    ;

    /// Whether the record belongs to the stream `comp`.
    fn fine_grained_eq(&self, comp: &str) -> (same: bool)
        ensures
            same == (comp@ == self.spec_fine_grained_id()),
    {
        let id = self.to_fine_grained_id();
        let wanted = comp.to_owned();
        wanted == id
    }
}

/// Derives the id of a stream from the entity that its events are about.
pub trait StreamIdFromEvent<Evt: Event>: Sized + View<V = Seq<char>> {
    /// The stream id of an entity.
    spec fn spec_stream_id(id: Evt::EntityId) -> Seq<char>;

    /// The id of the stream that `e` belongs to: that of its entity.
    fn from(e: Evt) -> (stream_id: Self)
        ensures
            stream_id@ == Self::spec_stream_id(Evt::spec_id(e@)),
    {
        Self::event_entity_id_into(e.get_id())
    }

    /// The id of the stream of the entity `id`.
    fn event_entity_id_into(id: Evt::EntityId) -> (stream_id: Self)
        ensures
            stream_id@ == Self::spec_stream_id(id),
    ;
}

} // verus!
