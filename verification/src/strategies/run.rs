//! The load-decide-append strategy as its decisions alone: what to ask of
//! the repository next, given what it answered last. A caller that owns the
//! repository makes the calls between the decisions, and may wait where the
//! strategy asks for it.

use crate::decider::{
    fold_state, lemma_fold_concat, outcome_view, replay, views, CloneKeepsView, DeciderWithContext,
    Event, Evolver,
};
use crate::repository::{RepositoryVersion, StreamIdFromEvent, VersionedRepositoryError};
use crate::strategies::{
    backoff, spec_backoff, LoadDecideAppendError, StreamState, DEFAULT_MAX_RETRIES,
};
use vstd::prelude::*;

verus! {

/// What the strategy asks of its caller next.
pub enum Action<E, V, DecideErr, RepoErr> {
    /// Load the events of `stream`, and answer with `Run::observed`.
    Load { stream: String },
    /// Append `events` to `stream` at `version`, and answer with `Run::appended`.
    Append { version: RepositoryVersion<V>, stream: String, events: Vec<E> },
    /// Let `nanos` nanoseconds pass, load the events of `stream` that follow
    /// `version`, and answer with `Run::observed`.
    CatchUp { nanos: u32, version: RepositoryVersion<V>, stream: String },
    /// The command is done, with this result.
    Done(Result<Vec<E>, LoadDecideAppendError<DecideErr, RepoErr>>),
}

/// Where the carrying out of one command stands between two calls to the repository.
pub struct Run<D: DeciderWithContext, V, RepoErr> {
    stream_id: StreamState<String>,
    state: D::State,
    version: RepositoryVersion<V>,
    attempts: u32,
    max_retries: u32,
    seen: Ghost<Seq<<D::Evt as View>::V>>,
    failure: core::marker::PhantomData<RepoErr>,
}

/// The stream that a run is about, if it is known, by the text of its id.
pub open spec fn stream_text(stream_id: StreamState<String>) -> Option<Seq<char>> {
    match stream_id {
        StreamState::New => None,
        StreamState::Existing(id) => Some(id@),
    }
}

impl<D: DeciderWithContext, V: Copy, RepoErr> Run<D, V, RepoErr> where
    String: StreamIdFromEvent<D::Evt>,
 {
    /// The state of a run is the state that the events it has seen stand
    /// for, and it has made no more attempts than it may.
    pub closed spec fn inv(&self) -> bool {
        &&& self.state@ == replay::<D>(self.seen@)
        &&& self.attempts <= self.max_retries
    }

    /// The stream that the run is about, if it is known.
    pub closed spec fn stream(&self) -> Option<Seq<char>> {
        stream_text(self.stream_id)
    }

    /// The events that the run has seen, in order.
    pub closed spec fn seen(&self) -> Seq<<D::Evt as View>::V> {
        self.seen@
    }

    /// The version at which the run last saw the stream.
    pub closed spec fn version(&self) -> RepositoryVersion<V> {
        self.version
    }

    /// The number of times that the decider was asked.
    pub closed spec fn attempts(&self) -> u32 {
        self.attempts
    }

    /// The number of times that the decider may be asked.
    pub closed spec fn max_retries(&self) -> u32 {
        self.max_retries
    }

    /// A run makes no more attempts than it may.
    pub proof fn lemma_attempts_bounded(&self)
        requires
            self.inv(),
        ensures
            self.attempts() <= self.max_retries(),
    {
    }

    /// Whether `after` and `action` are what comes of asking the decider in
    /// the run `self`: nothing but exhaustion where no attempt is left, and
    /// else one attempt more and the answer of the decider, with an append
    /// asked for where the decider produced events.
    pub open spec fn decided(
        self,
        ctx: D::Ctx,
        cmd: D::Cmd,
        after: Self,
        action: Action<D::Evt, V, D::DomainErr, RepoErr>,
    ) -> bool {
        &&& after.stream() == self.stream()
        &&& after.seen() == self.seen()
        &&& after.version() == self.version()
        &&& after.max_retries() == self.max_retries()
        &&& if self.attempts() >= self.max_retries() {
            &&& after.attempts() == self.attempts()
            &&& action matches Action::Done(Err(LoadDecideAppendError::OccMaxRetries))
        } else {
            &&& after.attempts() == self.attempts() + 1
            &&& match action {
                Action::Done(Ok(events)) => {
                    &&& events@.len() == 0
                    &&& D::decides(ctx, replay::<D>(self.seen()), cmd, Ok(views(events@)))
                },
                Action::Done(Err(LoadDecideAppendError::DecideErr(e))) => D::decides(
                    ctx,
                    replay::<D>(self.seen()),
                    cmd,
                    Err(e),
                ),
                Action::Append { version, stream, events } => {
                    &&& events@.len() > 0
                    &&& D::decides(ctx, replay::<D>(self.seen()), cmd, Ok(views(events@)))
                    &&& version == self.version()
                    &&& stream@ == match self.stream() {
                        Some(id) => id,
                        None => <String as StreamIdFromEvent<D::Evt>>::spec_stream_id(
                            D::Evt::spec_id(views(events@)[0]),
                        ),
                    }
                },
                _ => false,
            }
        }
    }

    /// Asks the decider, if an attempt is left.
    fn decide_next(self, ctx: &D::Ctx, cmd: &D::Cmd) -> (next: (
        Self,
        Action<D::Evt, V, D::DomainErr, RepoErr>,
    ))
        requires
            self.inv(),
        ensures
            next.0.inv(),
            self.decided(*ctx, *cmd, next.0, next.1),
    {
        let mut run = self;
        if run.attempts >= run.max_retries {
            return (run, Action::Done(Err(LoadDecideAppendError::OccMaxRetries)));
        }
        run.attempts = run.attempts + 1;
        let decided = D::decide(ctx, &run.state, cmd);
        assert(D::decides(*ctx, replay::<D>(run.seen@), *cmd, outcome_view(decided)));
        let new_evts = match decided {
            Ok(evts) => evts,
            Err(e) => {
                return (run, Action::Done(Err(LoadDecideAppendError::DecideErr(e))));
            },
        };
        if new_evts.len() == 0 {
            return (run, Action::Done(Ok(new_evts)));
        }
        let stream = match &run.stream_id {
            StreamState::New => {
                let first = new_evts[0].clone();
                proof {
                    D::Evt::lemma_clone_keeps_view(new_evts@[0], first);
                }
                <String as StreamIdFromEvent<D::Evt>>::from(first)
            },
            StreamState::Existing(sid) => sid.clone(),
        };
        let version = run.version;
        (run, Action::Append { version, stream, events: new_evts })
    }

    /// Begins to carry out `cmd`, in at most `retrys` attempts (20 where
    /// none is named). Of a stream that is known the events are asked for; a
    /// new entity has none, and the decider is asked at once.
    pub fn start(
        stream_id: &StreamState<String>,
        ctx: &D::Ctx,
        cmd: &D::Cmd,
        retrys: Option<u32>,
    ) -> (begun: (Self, Action<D::Evt, V, D::DomainErr, RepoErr>))
        ensures
            begun.0.inv(),
            begun.0.stream() == stream_text(*stream_id),
            begun.0.max_retries() == match retrys {
                Some(n) => n,
                None => DEFAULT_MAX_RETRIES,
            },
            match *stream_id {
                StreamState::Existing(id) => {
                    &&& begun.1 matches Action::Load { stream }
                    &&& stream@ == id@
                    &&& begun.0.seen().len() == 0
                    &&& begun.0.attempts() == 0
                },
                StreamState::New => exists|fresh: Self|
                    {
                        &&& fresh.stream() is None
                        &&& fresh.seen().len() == 0
                        &&& fresh.version() is NoStream
                        &&& fresh.attempts() == 0
                        &&& fresh.max_retries() == begun.0.max_retries()
                        &&& #[trigger] fresh.decided(*ctx, *cmd, begun.0, begun.1)
                    },
            },
    {
        let max_retries = match retrys {
            Some(n) => n,
            None => DEFAULT_MAX_RETRIES,
        };
        match stream_id {
            StreamState::Existing(sid) => {
                let run = Run {
                    stream_id: StreamState::Existing(sid.clone()),
                    state: D::init(),
                    version: RepositoryVersion::NoStream,
                    attempts: 0,
                    max_retries,
                    seen: Ghost(Seq::empty()),
                    failure: core::marker::PhantomData,
                };
                (run, Action::Load { stream: sid.clone() })
            },
            StreamState::New => {
                let fresh = Run {
                    stream_id: StreamState::New,
                    state: D::init(),
                    version: RepositoryVersion::NoStream,
                    attempts: 0,
                    max_retries,
                    seen: Ghost(Seq::empty()),
                    failure: core::marker::PhantomData,
                };
                let next = fresh.decide_next(ctx, cmd);
                proof {
                    assert(fresh.decided(*ctx, *cmd, next.0, next.1));
                }
                next
            },
        }
    }

    /// Takes in what the repository answered to a read: the events are
    /// folded into the state and the stream stands at the version that was
    /// read, and the decider is asked; a failed read ends the run.
    pub fn observed(
        self,
        ctx: &D::Ctx,
        cmd: &D::Cmd,
        answer: Result<(Vec<D::Evt>, RepositoryVersion<V>), VersionedRepositoryError<RepoErr, V>>,
    ) -> (next: (Self, Action<D::Evt, V, D::DomainErr, RepoErr>))
        requires
            self.inv(),
        ensures
            next.0.inv(),
            answer is Err ==> {
                &&& next.0.stream() == self.stream()
                &&& next.0.seen() == self.seen()
                &&& next.0.version() == self.version()
                &&& next.0.attempts() == self.attempts()
                &&& next.0.max_retries() == self.max_retries()
            },
            match answer {
                Ok((events, version)) => exists|caught_up: Self|
                    {
                        &&& caught_up.stream() == self.stream()
                        &&& caught_up.seen() == self.seen() + views(events@)
                        &&& caught_up.version() == version
                        &&& caught_up.attempts() == self.attempts()
                        &&& caught_up.max_retries() == self.max_retries()
                        &&& #[trigger] caught_up.decided(*ctx, *cmd, next.0, next.1)
                    },
                Err(VersionedRepositoryError::VersionConflict(_)) => next.1 matches Action::Done(
                    Err(LoadDecideAppendError::VersionError),
                ),
                Err(VersionedRepositoryError::RepoErr(e)) => next.1 == Action::<
                    D::Evt,
                    V,
                    D::DomainErr,
                    RepoErr,
                >::Done(Err(LoadDecideAppendError::RepositoryErr(e))),
            },
    {
        match answer {
            Ok((events, version)) => {
                let Run { stream_id, state, version: _, attempts, max_retries, seen, failure } = self;
                let state = fold_state::<D>(state, &events);
                proof {
                    lemma_fold_concat::<D>(D::spec_init(), seen@, views(events@));
                }
                let caught_up = Run {
                    stream_id,
                    state,
                    version,
                    attempts,
                    max_retries,
                    seen: Ghost(seen@ + views(events@)),
                    failure,
                };
                let next = caught_up.decide_next(ctx, cmd);
                proof {
                    assert(caught_up.decided(*ctx, *cmd, next.0, next.1));
                }
                next
            },
            Err(VersionedRepositoryError::VersionConflict(_)) => (
                self,
                Action::Done(Err(LoadDecideAppendError::VersionError)),
            ),
            Err(VersionedRepositoryError::RepoErr(e)) => (
                self,
                Action::Done(Err(LoadDecideAppendError::RepositoryErr(e))),
            ),
        }
    }

    /// Takes in what the repository answered to the append to `stream`:
    /// the batch is written and the command is done, or the backend failed
    /// and the command is done, or another writer came first, and the run
    /// waits and catches up with what was written to `stream`.
    pub fn appended(
        self,
        stream: String,
        answer: Result<(Vec<D::Evt>, RepositoryVersion<V>), VersionedRepositoryError<RepoErr, V>>,
    ) -> (next: (Self, Action<D::Evt, V, D::DomainErr, RepoErr>))
        requires
            self.inv(),
        ensures
            next.0.inv(),
            next.0.stream() == self.stream(),
            next.0.seen() == self.seen(),
            next.0.version() == self.version(),
            next.0.attempts() == self.attempts(),
            next.0.max_retries() == self.max_retries(),
            match answer {
                Ok((appended, _)) => next.1 == Action::<D::Evt, V, D::DomainErr, RepoErr>::Done(
                    Ok(appended),
                ),
                Err(VersionedRepositoryError::RepoErr(e)) => next.1 == Action::<
                    D::Evt,
                    V,
                    D::DomainErr,
                    RepoErr,
                >::Done(Err(LoadDecideAppendError::RepositoryErr(e))),
                Err(VersionedRepositoryError::VersionConflict(_)) => {
                    &&& next.1 matches Action::CatchUp { nanos, version, stream: behind }
                    &&& nanos == spec_backoff(self.attempts())
                    &&& version == self.version()
                    &&& behind == stream
                },
            },
    {
        match answer {
            Ok((appended, _)) => (self, Action::Done(Ok(appended))),
            Err(VersionedRepositoryError::RepoErr(e)) => (
                self,
                Action::Done(Err(LoadDecideAppendError::RepositoryErr(e))),
            ),
            Err(VersionedRepositoryError::VersionConflict(_)) => {
                let nanos = backoff(self.attempts);
                let version = self.version;
                (self, Action::CatchUp { nanos, version, stream })
            },
        }
    }
}

} // verus!
