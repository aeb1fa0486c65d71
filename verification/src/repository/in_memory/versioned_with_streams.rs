//! Many streams in memory, each with the index of its last event as its
//! version, and the category that holds the events of all of them.

use crate::decider::{lemma_views_concat, views, Event};
use crate::repository::event::{
    stream_key, Log, Logs, Refusals, VersionedEventRepositoryWithStreams,
};
use crate::repository::in_memory::{clone_events, InMemoryEventRepositoryState};
use crate::repository::{RepositoryVersion, VersionDiff, VersionedRepositoryError};
use error::Error;
use vstd::prelude::*;

pub mod error;

verus! {

/// The version of a stream of `len` events: the index of the last one.
pub open spec fn version_of_len(len: nat) -> RepositoryVersion<usize> {
    if len == 0 {
        RepositoryVersion::NoStream
    } else {
        RepositoryVersion::Exact((len - 1) as usize)
    }
}

/// The number of events that lie at or before `version` in a stream of `len` events.
pub open spec fn reached(version: RepositoryVersion<usize>, len: nat) -> nat {
    match version {
        RepositoryVersion::Exact(v) => if v < len {
            (v + 1) as nat
        } else {
            len
        },
        _ => 0,
    }
}

/// Whether the version `a` comes before the version `b`: a stream that does
/// not exist comes before one that does, and of two that exist the one with
/// the lower index of its last event.
pub open spec fn version_precedes(a: RepositoryVersion<usize>, b: RepositoryVersion<usize>) -> bool {
    match (a, b) {
        (RepositoryVersion::NoStream, RepositoryVersion::Exact(_)) => true,
        (RepositoryVersion::Exact(x), RepositoryVersion::Exact(y)) => x < y,
        _ => false,
    }
}

/// A stream that grows comes to a later version.
pub proof fn lemma_version_grows(len: nat, batch: nat)
    requires
        batch > 0,
        len + batch - 1 <= usize::MAX,
    ensures
        version_precedes(version_of_len(len), version_of_len(len + batch)),
{
}

/// The key under which a repository named `stream_name` keeps a stream
/// (`Some`), or the category (`None`).
pub open spec fn spec_stream_key(stream_name: Seq<char>, stream_id: Option<Seq<char>>) -> Seq<char> {
    match stream_id {
        Some(id) => stream_name + seq!['/'] + id,
        None => stream_name,
    }
}

/// Two streams of one repository have the same key only if they are the same stream.
pub proof fn lemma_stream_key_injective(stream_name: Seq<char>, a: Seq<char>, b: Seq<char>)
    requires
        spec_stream_key(stream_name, Some(a)) == spec_stream_key(stream_name, Some(b)),
    ensures
        a == b,
{
    let prefix = stream_name + seq!['/'];
    assert((prefix + a).skip(prefix.len() as int) =~= a);
    assert((prefix + b).skip(prefix.len() as int) =~= b);
}

/// The number of events that `logs` holds under the streams `ids`, all together.
pub open spec fn events_in<T, V>(logs: Logs<T, V>, ids: Seq<Seq<char>>) -> nat
    decreases ids.len(),
{
    if ids.len() == 0 {
        0
    } else {
        events_in(logs, ids.drop_last()) + logs.events(Some(ids.last())).len()
    }
}

/// The number of events of the streams `states`, all together.
pub open spec fn total_events<E>(states: Seq<InMemoryEventRepositoryState<E>>) -> nat
    decreases states.len(),
{
    if states.len() == 0 {
        0
    } else {
        total_events(states.drop_last()) + states.last().events@.len()
    }
}

/// Where one stream is replaced, the total changes by what that stream gains.
proof fn lemma_total_update<E>(
    states: Seq<InMemoryEventRepositoryState<E>>,
    i: int,
    state: InMemoryEventRepositoryState<E>,
)
    requires
        0 <= i < states.len(),
    ensures
        total_events(states.update(i, state)) + states[i].events@.len() == total_events(states)
            + state.events@.len(),
    decreases states.len(),
{
    let updated = states.update(i, state);
    if i == states.len() - 1 {
        assert(updated.drop_last() =~= states.drop_last());
    } else {
        lemma_total_update(states.drop_last(), i, state);
        assert(updated.drop_last() =~= states.drop_last().update(i, state));
    }
}

/// Streams of events, kept in memory.
pub struct InMemoryEventRepository<E: Event> {
    stream_name: String,
    keys: Vec<String>,
    states: Vec<InMemoryEventRepositoryState<E>>,
    category: InMemoryEventRepositoryState<E>,
    ids: Ghost<Seq<Seq<char>>>,
    refused: Ghost<nat>,
}

/// What a stream kept in memory stands for.
pub open spec fn log_of<E: Event>(state: InMemoryEventRepositoryState<E>) -> Log<E::V, usize> {
    Log { events: views(state.events@), version: version_of_len(state.events@.len()) }
}

impl<E: Event> InMemoryEventRepository<E> {
    /// The name of the category.
    pub closed spec fn name(&self) -> Seq<char> {
        self.stream_name@
    }

    /// The streams, by their ids.
    pub closed spec fn streams(&self) -> Map<Seq<char>, Log<E::V, usize>> {
        Map::new(
            |id: Seq<char>| self.ids@.contains(id),
            |id: Seq<char>| log_of(self.states@[self.ids@.index_of(id)]),
        )
    }

    /// A repository without events, for the category `stream_name`.
    pub fn new(stream_name: &str) -> (repository: Self)
        ensures
            repository.inv(),
            repository.name() == stream_name@,
            repository.logs().streams == Map::<Seq<char>, Log<E::V, usize>>::empty(),
            repository.logs().category.events == Seq::<E::V>::empty(),
            repository.refusals().count == 0,
    {
        let repository = Self {
            stream_name: stream_name.to_owned(),
            keys: Vec::new(),
            states: Vec::new(),
            category: InMemoryEventRepositoryState::new(),
            ids: Ghost(Seq::empty()),
            refused: Ghost(0),
        };
        proof {
            assert(repository.streams() =~= Map::<Seq<char>, Log<E::V, usize>>::empty());
            assert(views(repository.category.events@) =~= Seq::<E::V>::empty());
        }
        repository
    }

    /// The ids of the streams, in the order in which they came to be.
    pub closed spec fn stream_ids(&self) -> Seq<Seq<char>> {
        self.ids@
    }

    proof fn lemma_events_counted(&self, k: int)
        requires
            self.inv(),
            0 <= k <= self.ids@.len(),
        ensures
            events_in(self.logs(), self.ids@.take(k)) == total_events(self.states@.take(k)),
        decreases k,
    {
        if k > 0 {
            self.lemma_events_counted(k - 1);
            assert(self.ids@.take(k).drop_last() =~= self.ids@.take(k - 1));
            assert(self.states@.take(k).drop_last() =~= self.states@.take(k - 1));
            let id = self.ids@[k - 1];
            assert(self.ids@.take(k).last() == id);
            assert(self.ids@.contains(id));
            assert(self.ids@.index_of(id) == k - 1);
        }
    }

    /// The category holds as many events as all streams together: every
    /// stream is known by one id, and what was appended to any of them is
    /// in the category once.
    pub proof fn lemma_category_holds_every_event(&self)
        requires
            self.inv(),
        ensures
            self.stream_ids().no_duplicates(),
            forall|id: Seq<char>|
                self.logs().streams.contains_key(id) <==> self.stream_ids().contains(id),
            self.logs().events(None).len() == events_in(self.logs(), self.stream_ids()),
    {
        self.lemma_events_counted(self.ids@.len() as int);
        assert(self.ids@.take(self.ids@.len() as int) =~= self.ids@);
        assert(self.states@.take(self.states@.len() as int) =~= self.states@);
    }

    /// Every stream, and the category, stands at the version of its length:
    /// the index of its last event, and `NoStream` where it has none.
    pub proof fn lemma_versions_follow_lengths(&self, id: Option<Seq<char>>)
        requires
            self.inv(),
        ensures
            self.logs().last_version(id) == version_of_len(self.logs().events(id).len()),
            self.logs().events(id).len() <= usize::MAX,
    {
        match id {
            None => {
                assert(self.category.events@.len() == self.category.events.len());
            },
            Some(stream) => {
                if self.ids@.contains(stream) {
                    let i = self.ids@.index_of(stream);
                    assert(self.states@[i].events@.len() == self.states@[i].events.len());
                }
            },
        }
    }

    fn get_stream_key(&self, stream_id: Option<&String>) -> (key: String)
        ensures
            key@ == spec_stream_key(self.name(), stream_key(stream_id)),
    {
        match stream_id {
            Some(id) => {
                let key = self.stream_name.clone();
                let key = key.concat("/");
                proof {
                    reveal_strlit("/");
                    assert("/"@ =~= seq!['/']);
                }
                key.concat(id.as_str())
            },
            None => self.stream_name.clone(),
        }
    }

    /// Where the stream with the key `key` is kept, if it exists.
    fn find_stream(&self, key: &String) -> (found: Option<usize>)
        requires
            self.inv(),
        ensures
            match found {
                Some(i) => i < self.keys@.len() && self.keys@[i as int]@ == key@,
                None => forall|i: int| 0 <= i < self.keys@.len() ==> self.keys@[i]@ != key@,
            },
    {
        let mut i: usize = 0;
        while i < self.keys.len()
            invariant
                i <= self.keys@.len(),
                forall|j: int| 0 <= j < i ==> self.keys@[j]@ != key@,
            decreases self.keys@.len() - i,
        {
            if self.keys[i] == *key {
                return Some(i);
            }
            i = i + 1;
        }
        None
    }

    fn index_from_version(version: &RepositoryVersion<usize>, len: usize) -> (index: usize)
        ensures
            index == reached(*version, len as nat),
    {
        match version {
            RepositoryVersion::Exact(v) => if *v < len {
                *v + 1
            } else {
                len
            },
            _ => 0,
        }
    }

    fn version_from_index(len: usize) -> (version: RepositoryVersion<usize>)
        ensures
            version == version_of_len(len as nat),
    {
        if len == 0 {
            RepositoryVersion::NoStream
        } else {
            RepositoryVersion::Exact(len - 1)
        }
    }
}

impl vstd::std_specs::convert::FromSpecImpl<Error> for VersionedRepositoryError<Error, usize> {
    open spec fn obeys_from_spec() -> bool {
        true
    }

    open spec fn from_spec(value: Error) -> Self {
        match value {
            Error::VersionConflict(diff) => VersionedRepositoryError::VersionConflict(diff),
        }
    }
}

impl From<Error> for VersionedRepositoryError<Error, usize> {
    fn from(value: Error) -> (error: Self) {
        let Error::VersionConflict(diff) = value;
        VersionedRepositoryError::VersionConflict(diff)
    }
}

impl<E: Event> VersionedEventRepositoryWithStreams<E, Error> for InMemoryEventRepository<E> {
    type Version = usize;

    closed spec fn inv(&self) -> bool {
        &&& self.keys@.len() == self.states@.len()
        &&& self.ids@.len() == self.keys@.len()
        &&& self.ids@.no_duplicates()
        &&& forall|i: int|
            0 <= i < self.keys@.len() ==> (#[trigger] self.keys@[i])@ == spec_stream_key(
                self.stream_name@,
                Some(self.ids@[i]),
            )
        &&& forall|i: int| 0 <= i < self.states@.len() ==> (#[trigger] self.states@[i]).events@.len() > 0
        &&& self.category.events@.len() == total_events(self.states@)
    }

    /// A repository in memory never fails.
    open spec fn reliable(&self) -> bool {
        true
    }

    closed spec fn refusals(&self) -> Refusals {
        Refusals { count: self.refused@ }
    }

    closed spec fn logs(&self) -> Logs<E::V, usize> {
        Logs { streams: self.streams(), category: log_of(self.category) }
    }

    open spec fn version_lt(a: usize, b: usize) -> bool {
        a < b
    }

    fn load(&self, id: Option<&String>) -> (res: Result<
        (Vec<E>, RepositoryVersion<usize>),
        VersionedRepositoryError<Error, usize>,
    >) {
        self.load_from_version(&RepositoryVersion::Any, id)
    }

    fn load_from_version(&self, version: &RepositoryVersion<usize>, id: Option<&String>) -> (res:
        Result<(Vec<E>, RepositoryVersion<usize>), VersionedRepositoryError<Error, usize>>)
        ensures
            res matches Ok((events, _)) && views(events@) == self.logs().events(stream_key(id)).skip(
                reached(*version, self.logs().events(stream_key(id)).len()) as int,
            ),
    {
        match id {
            None => {
                let len = self.category.events.len();
                let start = Self::index_from_version(version, len);
                let events = clone_events(&self.category.events, start);
                Ok((events, Self::version_from_index(len)))
            },
            Some(stream) => {
                let key = self.get_stream_key(Some(stream));
                match self.find_stream(&key) {
                    Some(i) => {
                        proof {
                            lemma_stream_key_injective(self.stream_name@, self.ids@[i as int], stream@);
                            assert(self.ids@.contains(stream@));
                            assert(self.ids@.index_of(stream@) == i);
                        }
                        let len = self.states[i].events.len();
                        let start = Self::index_from_version(version, len);
                        let events = clone_events(&self.states[i].events, start);
                        Ok((events, Self::version_from_index(len)))
                    },
                    None => {
                        proof {
                            if self.ids@.contains(stream@) {
                                let j = self.ids@.index_of(stream@);
                                assert(self.keys@[j]@ == key@);
                            }
                            assert(views(Seq::<E>::empty()) =~= Seq::<E::V>::empty());
                        }
                        Ok((Vec::new(), RepositoryVersion::NoStream))
                    },
                }
            },
        }
    }

    fn append(
        &mut self,
        version: &RepositoryVersion<usize>,
        stream: &String,
        events: &Vec<E>,
    ) -> (res: Result<(Vec<E>, RepositoryVersion<usize>), VersionedRepositoryError<Error, usize>>)
        ensures
            final(self).name() == old(self).name(),
    {
        let key = self.get_stream_key(Some(stream));
        let found = self.find_stream(&key);
        proof {
            match found {
                Some(i) => {
                    lemma_stream_key_injective(self.stream_name@, self.ids@[i as int], stream@);
                    assert(self.ids@.contains(stream@));
                    assert(self.ids@.index_of(stream@) == i);
                },
                None => {
                    if self.ids@.contains(stream@) {
                        let j = self.ids@.index_of(stream@);
                        assert(self.keys@[j]@ == key@);
                    }
                },
            }
        }
        let observed = match found {
            Some(i) => Self::version_from_index(self.states[i].events.len()),
            None => RepositoryVersion::NoStream,
        };
        let admitted = match version {
            RepositoryVersion::Any => true,
            RepositoryVersion::Exact(v) => match observed {
                RepositoryVersion::Exact(o) => o == *v,
                _ => false,
            },
            RepositoryVersion::NoStream => match observed {
                RepositoryVersion::NoStream => true,
                _ => false,
            },
            RepositoryVersion::StreamExists => match observed {
                RepositoryVersion::Exact(_) => true,
                _ => false,
            },
        };
        if !admitted {
            proof {
                self.refused@ = self.refused@ + 1;
            }
            return Err(VersionedRepositoryError::VersionConflict(VersionDiff::new(*version, observed)));
        }
        let ghost before = *self;
        let new_len: usize;
        match found {
            Some(i) => {
                let mut state = InMemoryEventRepositoryState::new();
                std::mem::swap(&mut state, &mut self.states[i]);
                let mut copies = clone_events(events, 0);
                proof {
                    lemma_views_concat(state.events@, copies@);
                }
                state.events.append(&mut copies);
                state.position = state.events.len() - 1;
                new_len = state.events.len();
                self.states[i] = state;
            },
            None => {
                let copies = clone_events(events, 0);
                new_len = copies.len();
                self.keys.push(key);
                self.states.push(
                    InMemoryEventRepositoryState { events: copies, position: new_len - 1 },
                );
                proof {
                    self.ids@ = self.ids@.push(stream@);
                }
            },
        }
        let mut copies = clone_events(events, 0);
        proof {
            lemma_views_concat(self.category.events@, copies@);
        }
        self.category.events.append(&mut copies);
        self.category.position = self.category.events.len() - 1;
        let appended = clone_events(events, 0);
        proof {
            let batch = views(events@);
            assert(views(events@).skip(0) =~= batch);
            match found {
                Some(i) => {
                    lemma_total_update(before.states@, i as int, self.states@[i as int]);
                    assert(self.states@ =~= before.states@.update(i as int, self.states@[i as int]));
                },
                None => {
                    assert(self.states@.drop_last() =~= before.states@);
                },
            }
            assert(self.ids@.contains(stream@)) by {
                match found {
                    Some(i) => {
                        assert(self.ids@[i as int] == stream@);
                    },
                    None => {
                        assert(self.ids@[self.ids@.len() - 1] == stream@);
                    },
                }
            }
            assert(self.streams() =~= before.streams().insert(stream@, self.streams()[stream@])) by {
                assert forall|id: Seq<char>| self.streams().contains_key(id) <==> (id == stream@
                    || before.streams().contains_key(id)) by {
                    if before.ids@.contains(id) {
                        let j = before.ids@.index_of(id);
                        assert(self.ids@[j] == id);
                    }
                    if self.ids@.contains(id) && id != stream@ {
                        let j = self.ids@.index_of(id);
                        assert(before.ids@[j] == id);
                    }
                }
                assert forall|id: Seq<char>| id != stream@ && before.streams().contains_key(id)
                    implies self.streams()[id] == before.streams()[id] by {
                    let j = before.ids@.index_of(id);
                    assert(self.ids@[j] == id);
                    assert(self.ids@.index_of(id) == j);
                }
            }
        }
        Ok((appended, RepositoryVersion::Exact(new_len - 1)))
    }
}

} // verus!
