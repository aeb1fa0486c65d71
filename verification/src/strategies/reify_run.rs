//! The reify-decide-save strategy as its decisions alone: what to ask of
//! the state repository next, given what it answered last.

use crate::decider::{fold_events, fold_state, outcome_view, views, DeciderWithContext, Evolver};
use crate::repository::{RepositoryVersion, VersionedRepositoryError};
use crate::strategies::{ReifyDecideSaveError, DEFAULT_MAX_RETRIES};
use vstd::prelude::*;

verus! {

/// What the strategy asks of its caller next.
pub enum ReifyAction<S, V, DecideErr, RepoErr> {
    /// Read the state and its version, and answer with `ReifyRun::reified`.
    Reify,
    /// Save `state` at `version`, and answer with `ReifyRun::saved`.
    Save { version: RepositoryVersion<V>, state: S },
    /// The command is done, with this result.
    Done(Result<S, ReifyDecideSaveError<DecideErr, RepoErr>>),
}

/// Where the carrying out of one command stands between two calls to the
/// state repository: how often the decider was asked, and how often it may be.
pub struct ReifyRun<D: DeciderWithContext, V, RepoErr> {
    attempts: u32,
    max_retries: u32,
    decider: core::marker::PhantomData<D>,
    version: core::marker::PhantomData<V>,
    failure: core::marker::PhantomData<RepoErr>,
}

impl<D: DeciderWithContext, V: Copy, RepoErr> ReifyRun<D, V, RepoErr> {
    /// A run has made no more attempts than it may.
    pub closed spec fn inv(&self) -> bool {
        self.attempts <= self.max_retries
    }

    /// The number of times that the decider was asked.
    pub closed spec fn attempts(&self) -> u32 {
        self.attempts
    }

    /// The number of times that the decider may be asked.
    pub closed spec fn max_retries(&self) -> u32 {
        self.max_retries
    }

    /// A run makes no more attempts than it may.
    pub proof fn lemma_attempts_bounded(&self)
        requires
            self.inv(),
        ensures
            self.attempts() <= self.max_retries(),
    {
    }

    /// Begins to carry out a command, in at most `retrys` attempts (20
    /// where none is named): the state is asked for.
    pub fn start(retrys: Option<u32>) -> (begun: (Self, ReifyAction<D::State, V, D::DomainErr, RepoErr>))
        ensures
            begun.0.inv(),
            begun.0.attempts() == 0,
            begun.0.max_retries() == match retrys {
                Some(n) => n,
                None => DEFAULT_MAX_RETRIES,
            },
            begun.1 is Reify,
    {
        let max_retries = match retrys {
            Some(n) => n,
            None => DEFAULT_MAX_RETRIES,
        };
        (
            ReifyRun {
                attempts: 0,
                max_retries,
                decider: core::marker::PhantomData,
                version: core::marker::PhantomData,
                failure: core::marker::PhantomData,
            },
            ReifyAction::Reify,
        )
    }

    /// Takes in what the repository answered to a read. A failed read ends
    /// the run, and so does a read when no attempt is left. Else the decider
    /// is asked in the state that was just read: what it produces is folded
    /// into that state, which is to be saved at the version that was read.
    pub fn reified(
        self,
        ctx: &D::Ctx,
        cmd: &D::Cmd,
        answer: Result<(D::State, RepositoryVersion<V>), RepoErr>,
    ) -> (next: (Self, ReifyAction<D::State, V, D::DomainErr, RepoErr>))
        requires
            self.inv(),
        ensures
            next.0.inv(),
            next.0.max_retries() == self.max_retries(),
            match answer {
                Err(e) => {
                    &&& next.0.attempts() == self.attempts()
                    &&& next.1 == ReifyAction::<D::State, V, D::DomainErr, RepoErr>::Done(
                        Err(ReifyDecideSaveError::RepositoryErr(e)),
                    )
                },
                Ok((state, version)) => if self.attempts() >= self.max_retries() {
                    &&& next.0.attempts() == self.attempts()
                    &&& next.1 matches ReifyAction::Done(Err(ReifyDecideSaveError::OccMaxRetries))
                } else {
                    &&& next.0.attempts() == self.attempts() + 1
                    &&& match next.1 {
                        ReifyAction::Done(Err(ReifyDecideSaveError::DecideErr(e))) => D::decides(
                            *ctx,
                            state@,
                            *cmd,
                            Err(e),
                        ),
                        ReifyAction::Save { version: at, state: folded } => {
                            &&& at == version
                            &&& exists|batch: Seq<<D::Evt as View>::V>|
                                {
                                    &&& #[trigger] D::decides(*ctx, state@, *cmd, Ok(batch))
                                    &&& folded@ == fold_events::<D>(state@, batch)
                                }
                        },
                        _ => false,
                    }
                },
            },
    {
        let (state, version) = match answer {
            Ok(read) => read,
            Err(e) => {
                return (self, ReifyAction::Done(Err(ReifyDecideSaveError::RepositoryErr(e))));
            },
        };
        let mut run = self;
        if run.attempts >= run.max_retries {
            return (run, ReifyAction::Done(Err(ReifyDecideSaveError::OccMaxRetries)));
        }
        run.attempts = run.attempts + 1;
        let decided = D::decide(ctx, &state, cmd);
        assert(D::decides(*ctx, state@, *cmd, outcome_view(decided)));
        let evts = match decided {
            Ok(evts) => evts,
            Err(e) => {
                return (run, ReifyAction::Done(Err(ReifyDecideSaveError::DecideErr(e))));
            },
        };
        let folded = fold_state::<D>(state, &evts);
        (run, ReifyAction::Save { version, state: folded })
    }

    /// Takes in what the repository answered to a save: the state is saved
    /// and the command is done, or the backend failed and the command is
    /// done, or another writer came first, and the state is read again.
    pub fn saved(self, answer: Result<D::State, VersionedRepositoryError<RepoErr, V>>) -> (next: (
        Self,
        ReifyAction<D::State, V, D::DomainErr, RepoErr>,
    ))
        requires
            self.inv(),
        ensures
            next.0.inv(),
            next.0.attempts() == self.attempts(),
            next.0.max_retries() == self.max_retries(),
            match answer {
                Ok(saved) => next.1 == ReifyAction::<D::State, V, D::DomainErr, RepoErr>::Done(
                    Ok(saved),
                ),
                Err(VersionedRepositoryError::RepoErr(e)) => next.1 == ReifyAction::<
                    D::State,
                    V,
                    D::DomainErr,
                    RepoErr,
                >::Done(Err(ReifyDecideSaveError::RepositoryErr(e))),
                Err(VersionedRepositoryError::VersionConflict(_)) => next.1 is Reify,
            },
    {
        match answer {
            Ok(saved) => (self, ReifyAction::Done(Ok(saved))),
            Err(VersionedRepositoryError::RepoErr(e)) => (
                self,
                ReifyAction::Done(Err(ReifyDecideSaveError::RepositoryErr(e))),
            ),
            Err(VersionedRepositoryError::VersionConflict(_)) => (self, ReifyAction::Reify),
        }
    }
}

} // verus!
