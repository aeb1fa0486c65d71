//! How a command is carried out against a repository: load, decide, append,
//! and again when another writer came first.

use crate::decider::{
    fold_events, fold_state, replay, views, CloneKeepsView, DeciderWithContext, Event, Evolver,
};
use crate::repository::event::{Logs, VersionedEventRepositoryWithStreams};
use crate::repository::state::VersionedStateRepository;
use crate::repository::{StreamIdFromEvent, VersionedRepositoryError};
use reify_run::{ReifyAction, ReifyRun};
use run::{stream_text, Action, Run};
use vstd::prelude::*;

pub mod reify_run;
pub mod run;

verus! {

/// Whether the stream of the entity that a command is about is known yet.
pub enum StreamState<T> {
    /// The entity is new: its stream id comes from the first event that the
    /// decider produces.
    New,
    /// The entity has this stream.
    Existing(T),
}

/// Why a command was not carried out.
#[derive(Debug)]
pub enum LoadDecideAppendError<DecideErr, RepoErr> {
    /// Every attempt met a version conflict.
    OccMaxRetries,
    /// A read met a version conflict.
    VersionError,
    /// The decider refused the command.
    DecideErr(DecideErr),
    /// The backend failed.
    RepositoryErr(RepoErr),
}

/// Why a command was not carried out against a state repository.
#[derive(Debug)]
pub enum ReifyDecideSaveError<DecideErr, RepoErr> {
    /// Every attempt met a version conflict.
    OccMaxRetries,
    /// The decider refused the command.
    DecideErr(DecideErr),
    /// The backend failed.
    RepositoryErr(RepoErr),
}

/// The number of attempts that are made where the caller names none.
pub const DEFAULT_MAX_RETRIES: u32 = 20;

/// The time to wait after the failed attempt number `attempt`, in
/// nanoseconds: a tenth of a second for each attempt so far, and never more
/// than `u32::MAX`.
pub open spec fn spec_backoff(attempt: u32) -> u32 {
    if 100_000_000 * attempt <= u32::MAX {
        (100_000_000 * attempt) as u32
    } else {
        u32::MAX
    }
}

/// The time to wait after the failed attempt number `attempt`, in nanoseconds.
pub fn backoff(attempt: u32) -> (nanos: u32)
    ensures
        nanos == spec_backoff(attempt),
{
    if attempt <= 42 {
        100_000_000 * attempt
    } else {
        u32::MAX
    }
}

/// The state that the events of a repository stand for.
pub trait StateFromEventRepository {
    type Ev: Evolver;

    /// The state that the events of the whole category stand for.
    fn load<RepoErr, Repo: VersionedEventRepositoryWithStreams<<Self::Ev as Evolver>::Evt, RepoErr>>(
        event_repository: &Repo,
    ) -> (res: Result<
        <Self::Ev as Evolver>::State,
        VersionedRepositoryError<RepoErr, Repo::Version>,
    >)
        requires
            event_repository.inv(),
        ensures
            event_repository.reliable() ==> res is Ok,
            res matches Ok(state) ==> state@ == replay::<Self::Ev>(
                event_repository.logs().events(None),
            ),
    {
        match event_repository.load(None) {
            Ok((events, _)) => Ok(fold_state::<Self::Ev>(<Self::Ev as Evolver>::init(), &events)),
            Err(e) => Err(e),
        }
    }

    /// The state that the events of one stream stand for.
    fn load_by_id<
        RepoErr,
        Repo: VersionedEventRepositoryWithStreams<<Self::Ev as Evolver>::Evt, RepoErr>,
    >(event_repository: &Repo, stream_id: &String) -> (res: Result<
        <Self::Ev as Evolver>::State,
        VersionedRepositoryError<RepoErr, Repo::Version>,
    >)
        requires
            event_repository.inv(),
        ensures
            event_repository.reliable() ==> res is Ok,
            res matches Ok(state) ==> state@ == replay::<Self::Ev>(
                event_repository.logs().events(Some(stream_id@)),
            ),
    {
        match event_repository.load(Some(stream_id)) {
            Ok((events, _)) => Ok(fold_state::<Self::Ev>(<Self::Ev as Evolver>::init(), &events)),
            Err(e) => Err(e),
        }
    }
}

/// The stream that a command writes to, by the id of the stream where it is
/// known and else by the first of the events that the decider produced.
pub open spec fn target_stream<Evt: Event>(
    stream_id: StreamState<String>,
    batch: Seq<Evt::V>,
) -> Seq<char> where String: StreamIdFromEvent<Evt> {
    match stream_id {
        StreamState::Existing(id) => id@,
        StreamState::New => <String as StreamIdFromEvent<Evt>>::spec_stream_id(
            Evt::spec_id(batch[0]),
        ),
    }
}

/// The events that a command is decided against, where they are known
/// before the decider runs: those of the stream, where the stream is known.
pub open spec fn known_history<T, V>(stream_id: StreamState<String>, logs: Logs<T, V>) -> Option<
    Seq<T>,
> {
    match stream_id {
        StreamState::Existing(id) => Some(logs.events(Some(id@))),
        StreamState::New => None,
    }
}

/// Whether `outcome` is an answer of the decider to `cmd` in the state that
/// replaying `history` gives or, where no history is named, in a state that
/// replaying some events gives.
pub open spec fn decided_against<D: DeciderWithContext>(
    ctx: D::Ctx,
    cmd: D::Cmd,
    history: Option<Seq<<D::Evt as View>::V>>,
    outcome: Result<Seq<<D::Evt as View>::V>, D::DomainErr>,
) -> bool {
    match history {
        Some(events) => D::decides(ctx, replay::<D>(events), cmd, outcome),
        None => exists|seen: Seq<<D::Evt as View>::V>| #[trigger]
            D::decides(ctx, replay::<D>(seen), cmd, outcome),
    }
}

/// Whether every batch with which the decider may answer `cmd` for a new
/// entity goes to a stream that `logs` does not hold yet.
pub open spec fn names_no_stream_yet<D: DeciderWithContext, V>(
    ctx: D::Ctx,
    cmd: D::Cmd,
    logs: Logs<<D::Evt as View>::V, V>,
) -> bool where String: StreamIdFromEvent<D::Evt> {
    forall|batch: Seq<<D::Evt as View>::V>| #[trigger]
        D::decides(ctx, replay::<D>(Seq::empty()), cmd, Ok(batch)) && batch.len() > 0
            ==> logs.last_version(
            Some(target_stream::<D::Evt>(StreamState::New, batch)),
        ) is NoStream
}

/// Whether `res` is a result of carrying out `cmd` that took the repository
/// from `before` to `after`.
///
/// A result with events: the decider answered with them, and they stand
/// whole and once at the end of the stream and of the category, and nothing
/// else changed (nothing at all where there are no events). A refusal of the
/// decider, exhaustion, and a conflict at a read: nothing changed. Where the
/// stream is known, the decider was asked in the state that the events of
/// the stream stand for.
pub open spec fn carried_out<D: DeciderWithContext, V, RepoErr>(
    stream_id: StreamState<String>,
    ctx: D::Ctx,
    cmd: D::Cmd,
    before: Logs<<D::Evt as View>::V, V>,
    after: Logs<<D::Evt as View>::V, V>,
    res: Result<Vec<D::Evt>, LoadDecideAppendError<D::DomainErr, RepoErr>>,
) -> bool where String: StreamIdFromEvent<D::Evt> {
    match res {
        Ok(events) => {
            let batch = views(events@);
            &&& decided_against::<D>(ctx, cmd, known_history(stream_id, before), Ok(batch))
            &&& if batch.len() == 0 {
                after == before
            } else {
                before.appended(after, target_stream::<D::Evt>(stream_id, batch), batch)
            }
        },
        Err(LoadDecideAppendError::DecideErr(e)) => {
            &&& after == before
            &&& decided_against::<D>(ctx, cmd, known_history(stream_id, before), Err(e))
        },
        Err(LoadDecideAppendError::OccMaxRetries) => after == before,
        Err(LoadDecideAppendError::VersionError) => after == before,
        Err(LoadDecideAppendError::RepositoryErr(_)) => true,
    }
}

/// How far a run is from its end: an action that leads to more calls comes
/// before one that leads to fewer.
pub open spec fn calls_ahead<E, V, DecideErr, RepoErr>(
    action: Action<E, V, DecideErr, RepoErr>,
) -> nat {
    match action {
        Action::Load { .. } => 3,
        Action::Append { .. } => 2,
        Action::CatchUp { .. } => 1,
        Action::Done(_) => 0,
    }
}

/// Whether `action` is in order for the run `run` on a repository that holds
/// `logs` and held `before` when the command came in.
pub open spec fn in_order<D: DeciderWithContext, V: Copy, RepoErr>(
    stream_id: StreamState<String>,
    ctx: D::Ctx,
    cmd: D::Cmd,
    before: Logs<<D::Evt as View>::V, V>,
    logs: Logs<<D::Evt as View>::V, V>,
    run: Run<D, V, RepoErr>,
    action: Action<D::Evt, V, D::DomainErr, RepoErr>,
) -> bool where String: StreamIdFromEvent<D::Evt> {
    let caught_up = stream_id matches StreamState::Existing(id) ==> {
        &&& run.seen() == logs.events(Some(id@))
        &&& run.version() == logs.last_version(Some(id@))
    };
    match action {
        Action::Load { stream } => {
            &&& logs == before
            &&& stream_id matches StreamState::Existing(id)
            &&& stream@ == id@
            &&& run.seen().len() == 0
        },
        Action::Append { version, stream, events } => {
            &&& logs == before
            &&& caught_up
            &&& events@.len() > 0
            &&& D::decides(ctx, replay::<D>(run.seen()), cmd, Ok(views(events@)))
            &&& version == run.version()
            &&& stream@ == target_stream::<D::Evt>(stream_id, views(events@))
        },
        Action::CatchUp { nanos, version, stream } => {
            &&& logs == before
            &&& caught_up
            &&& version == run.version()
            &&& stream_id matches StreamState::Existing(id) ==> stream@ == id@
        },
        Action::Done(res) => carried_out::<D, V, RepoErr>(stream_id, ctx, cmd, before, logs, res),
    }
}

/// Whether `res` goes by what the decider answered first when it was asked
/// about a new entity, in the state before any event: a refusal of the
/// decider is the result, and so is an answer without events.
pub open spec fn decided_first<D: DeciderWithContext, RepoErr>(
    ctx: D::Ctx,
    cmd: D::Cmd,
    res: Result<Vec<D::Evt>, LoadDecideAppendError<D::DomainErr, RepoErr>>,
) -> bool {
    exists|first: Result<Seq<<D::Evt as View>::V>, D::DomainErr>|
        {
            &&& #[trigger] D::decides(ctx, replay::<D>(Seq::empty()), cmd, first)
            &&& goes_by(first, res)
        }
}

/// Whether `res` is the result that the first answer `first` of the decider
/// settles, where it settles one: its refusal, or no events.
pub open spec fn goes_by<T, E: View, DecideErr, RepoErr>(
    first: Result<Seq<T>, DecideErr>,
    res: Result<Vec<E>, LoadDecideAppendError<DecideErr, RepoErr>>,
) -> bool {
    match first {
        Err(e) => res == Err::<Vec<E>, LoadDecideAppendError<DecideErr, RepoErr>>(
            LoadDecideAppendError::DecideErr(e),
        ),
        Ok(batch) => batch.len() == 0 ==> (res matches Ok(events) && events@.len() == 0),
    }
}

/// The answer of the decider that `action` came of.
pub open spec fn answer_behind<E: View, V, DecideErr, RepoErr>(
    action: Action<E, V, DecideErr, RepoErr>,
) -> Result<Seq<E::V>, DecideErr> {
    match action {
        Action::Done(Ok(events)) => Ok(views(events@)),
        Action::Done(Err(LoadDecideAppendError::DecideErr(e))) => Err(e),
        Action::Append { events, .. } => Ok(views(events@)),
        _ => Ok(Seq::empty()),
    }
}

/// Carries out a command: load the events of the stream, fold them into a
/// state, decide, append what was decided at the version that was loaded.
/// Where another writer came first, catch up with what was written and
/// decide again.
pub trait LoadDecideAppend {
    type Decide: DeciderWithContext;

    /// What a failed read means to the caller of the strategy.
    fn to_lda_error<DecErr, RepoErr, V>(err: VersionedRepositoryError<RepoErr, V>) -> (mapped:
        LoadDecideAppendError<DecErr, RepoErr>)
        ensures
            match err {
                VersionedRepositoryError::VersionConflict(_) => mapped is VersionError,
                VersionedRepositoryError::RepoErr(e) => mapped == LoadDecideAppendError::<
                    DecErr,
                    RepoErr,
                >::RepositoryErr(e),
            },
    {
        match err {
            VersionedRepositoryError::VersionConflict(_) => LoadDecideAppendError::VersionError,
            VersionedRepositoryError::RepoErr(e) => LoadDecideAppendError::RepositoryErr(e),
        }
    }

    /// Lets `nanos` nanoseconds pass before the next attempt. The library
    /// itself never waits.
    fn pause(nanos: u32) {
    }

    /// Carries out `cmd`, in at most `retrys` attempts (20 where none is
    /// named). Every attempt but the last ends in a version conflict, and
    /// only when every attempt that is allowed has ended in one, the
    /// command is given up.
    fn execute<
        RepoErr,
        Repo: VersionedEventRepositoryWithStreams<<Self::Decide as Evolver>::Evt, RepoErr>,
    >(
        event_repository: &mut Repo,
        stream_id: &StreamState<String>,
        ctx: &<Self::Decide as DeciderWithContext>::Ctx,
        cmd: &<Self::Decide as DeciderWithContext>::Cmd,
        retrys: Option<u32>,
    ) -> (res: Result<
        Vec<<Self::Decide as Evolver>::Evt>,
        LoadDecideAppendError<<Self::Decide as DeciderWithContext>::DomainErr, RepoErr>,
    >) where String: StreamIdFromEvent<<Self::Decide as Evolver>::Evt>
        requires
            old(event_repository).inv(),
        ensures
            final(event_repository).inv(),
            carried_out::<Self::Decide, Repo::Version, RepoErr>(
                *stream_id,
                *ctx,
                *cmd,
                old(event_repository).logs(),
                final(event_repository).logs(),
                res,
            ),
            final(event_repository).reliable() == old(event_repository).reliable(),
            conflicts_met(
                final(event_repository).refusals().count - old(event_repository).refusals().count,
                attempts_allowed(retrys),
                res is Ok || res matches Err(LoadDecideAppendError::DecideErr(_)),
                res matches Err(LoadDecideAppendError::OccMaxRetries),
            ),
            stream_id is New && retrys != Some(0u32) ==> decided_first::<Self::Decide, RepoErr>(
                *ctx,
                *cmd,
                res,
            ),
            old(event_repository).reliable() && stream_id is Existing && retrys != Some(0u32)
                ==> res is Ok || res matches Err(LoadDecideAppendError::DecideErr(_)),
            old(event_repository).reliable() && stream_id is New && retrys != Some(0u32)
                && names_no_stream_yet::<Self::Decide, Repo::Version>(
                *ctx,
                *cmd,
                old(event_repository).logs(),
            ) ==> res is Ok || res matches Err(LoadDecideAppendError::DecideErr(_)),
            retrys == Some(0u32) ==> res is Err && !(res->Err_0 is DecideErr),
            retrys == Some(0u32) && stream_id is New ==> res is Err && res->Err_0 is OccMaxRetries,
    {
        let begun = Run::<Self::Decide, Repo::Version, RepoErr>::start(stream_id, ctx, cmd, retrys);
        let mut run = begun.0;
        let mut action = begun.1;
        let ghost first = answer_behind(action);
        proof {
            run.lemma_attempts_bounded();
            if stream_id is New && retrys != Some(0u32) {
                let fresh = choose|fresh: Run<Self::Decide, Repo::Version, RepoErr>|
                    {
                        &&& fresh.stream() is None
                        &&& fresh.seen().len() == 0
                        &&& fresh.version() is NoStream
                        &&& fresh.attempts() == 0
                        &&& fresh.max_retries() == run.max_retries()
                        &&& #[trigger] fresh.decided(*ctx, *cmd, run, action)
                    };
                assert(fresh.seen() =~= Seq::empty());
            }
        }
        loop
            invariant
                event_repository.inv(),
                event_repository.reliable() == old(event_repository).reliable(),
                run.max_retries() == attempts_allowed(retrys),
                run.attempts() <= run.max_retries(),
                event_repository.refusals().count >= old(event_repository).refusals().count,
                match action {
                    Action::Load { .. } => run.attempts() == 0 && event_repository.refusals().count
                        == old(event_repository).refusals().count,
                    Action::Append { .. } => run.attempts() == event_repository.refusals().count
                        - old(event_repository).refusals().count + 1,
                    Action::CatchUp { .. } => run.attempts() == event_repository.refusals().count
                        - old(event_repository).refusals().count,
                    Action::Done(outcome) => conflicts_met(
                        event_repository.refusals().count - old(event_repository).refusals().count,
                        attempts_allowed(retrys),
                        outcome is Ok || outcome matches Err(LoadDecideAppendError::DecideErr(_)),
                        outcome matches Err(LoadDecideAppendError::OccMaxRetries),
                    ),
                },
                stream_id is New && retrys != Some(0u32) ==> {
                    &&& <Self::Decide as DeciderWithContext>::decides(
                        *ctx,
                        replay::<Self::Decide>(Seq::empty()),
                        *cmd,
                        first,
                    )
                    &&& first is Err || first->Ok_0.len() == 0 ==> (action matches Action::Done(
                        outcome,
                    ) && goes_by(first, outcome))
                },
                event_repository.reliable() && stream_id is Existing && retrys != Some(0u32) ==> {
                    &&& run.max_retries() > 0
                    &&& action is Load ==> run.attempts() == 0
                    &&& !(action is CatchUp)
                    &&& action matches Action::Done(outcome) ==> outcome is Ok
                        || outcome matches Err(LoadDecideAppendError::DecideErr(_))
                },
                event_repository.reliable() && stream_id is New && retrys != Some(0u32)
                    && names_no_stream_yet::<Self::Decide, Repo::Version>(
                    *ctx,
                    *cmd,
                    old(event_repository).logs(),
                ) ==> {
                    &&& !(action is CatchUp)
                    &&& action is Append ==> run.seen().len() == 0 && run.version() is NoStream
                    &&& action matches Action::Done(outcome) ==> outcome is Ok
                        || outcome matches Err(LoadDecideAppendError::DecideErr(_))
                },
                run.inv(),
                run.stream() == stream_text(*stream_id),
                in_order::<Self::Decide, Repo::Version, RepoErr>(
                    *stream_id,
                    *ctx,
                    *cmd,
                    old(event_repository).logs(),
                    event_repository.logs(),
                    run,
                    action,
                ),
                retrys == Some(0u32) ==> {
                    &&& run.max_retries() == 0
                    &&& action is Load || action is Done
                    &&& action matches Action::Done(outcome) ==> outcome is Err
                        && !(outcome->Err_0 is DecideErr)
                },
                retrys == Some(0u32) && stream_id is New ==> action matches Action::Done(
                    Err(LoadDecideAppendError::OccMaxRetries),
                ),
            decreases run.max_retries() - run.attempts(), calls_ahead(action),
        {
            let next = match action {
                Action::Load { stream } => {
                    let answer = event_repository.load(Some(&stream));
                    proof {
                        if answer is Ok {
                            let events = answer->Ok_0.0;
                            assert(run.seen() + views(events@) =~= views(events@));
                        }
                    }
                    run.observed(ctx, cmd, answer)
                },
                Action::Append { version, stream, events } => {
                    proof {
                        if run.seen().len() == 0 {
                            assert(run.seen() =~= Seq::empty());
                        }
                    }
                    let answer = event_repository.append(&version, &stream, &events);
                    run.appended(stream, answer)
                },
                Action::CatchUp { nanos, version, stream } => {
                    Self::pause(nanos);
                    let answer = event_repository.load_from_version(&version, Some(&stream));
                    proof {
                        if answer is Ok && stream_id is Existing {
                            let tail = answer->Ok_0.0;
                            assert(views(tail@) =~= Seq::empty());
                            assert(run.seen() + views(tail@) =~= run.seen());
                        }
                    }
                    run.observed(ctx, cmd, answer)
                },
                Action::Done(outcome) => {
                    proof {
                        if stream_id is New && retrys != Some(0u32) {
                            assert(goes_by(first, outcome));
                        }
                    }
                    return outcome;
                },
            };
            proof {
                next.0.lemma_attempts_bounded();
            }
            run = next.0;
            action = next.1;
        }
    }
}

/// The number of attempts that a caller allows who names `retrys`.
pub open spec fn attempts_allowed(retrys: Option<u32>) -> u32 {
    match retrys {
        Some(n) => n,
        None => DEFAULT_MAX_RETRIES,
    }
}

/// Whether a command that ended with a refusal of the decider or with
/// success (`settled`), with exhaustion (`exhausted`), or with a failure of
/// the backend met `refused` version conflicts on its way, where `allowed`
/// attempts were allowed: every attempt but the last ends in a conflict, and
/// exhaustion comes when every attempt that was allowed has ended in one.
pub open spec fn conflicts_met(refused: int, allowed: u32, settled: bool, exhausted: bool) -> bool {
    if exhausted {
        refused == allowed
    } else if settled {
        0 <= refused < allowed
    } else {
        0 <= refused <= allowed
    }
}

/// Whether `res` is a result of carrying out `cmd` against a state
/// repository that held `state` and has `after` in its place.
///
/// A state as result: the decider answered with events in `state`, and
/// the result is `state` with these events folded in, which is now held. A
/// refusal of the decider in `state`, and exhaustion: nothing changed.
pub open spec fn reify_carried_out<D: DeciderWithContext, RepoErr>(
    ctx: D::Ctx,
    cmd: D::Cmd,
    state: <D::State as View>::V,
    after: <D::State as View>::V,
    res: Result<D::State, ReifyDecideSaveError<D::DomainErr, RepoErr>>,
) -> bool {
    match res {
        Ok(saved) => {
            &&& after == saved@
            &&& exists|batch: Seq<<D::Evt as View>::V>|
                {
                    &&& #[trigger] D::decides(ctx, state, cmd, Ok(batch))
                    &&& saved@ == fold_events::<D>(state, batch)
                }
        },
        Err(ReifyDecideSaveError::DecideErr(e)) => after == state && D::decides(
            ctx,
            state,
            cmd,
            Err(e),
        ),
        Err(ReifyDecideSaveError::OccMaxRetries) => after == state,
        Err(ReifyDecideSaveError::RepositoryErr(_)) => true,
    }
}

/// How far a run is from its end.
pub open spec fn reify_calls_ahead<S, V, DecideErr, RepoErr>(
    action: ReifyAction<S, V, DecideErr, RepoErr>,
) -> nat {
    match action {
        ReifyAction::Save { .. } => 2,
        ReifyAction::Reify => 1,
        ReifyAction::Done(_) => 0,
    }
}

/// Carries out a command against a state that is kept whole: read the
/// state, decide, fold what was decided into the state, save it at the
/// version that was read. Where another writer came first, read again and
/// decide again, in the state that was read then.
pub trait ReifyDecideSave {
    type Decide: DeciderWithContext;

    /// Carries out `cmd`, in at most `retrys` attempts (20 where none is
    /// named). Every attempt but the last ends in a version conflict, and
    /// only when every attempt that is allowed has ended in one, the
    /// command is given up.
    fn execute_reify_decide<
        RepoErr,
        Repo: VersionedStateRepository<<Self::Decide as Evolver>::State, RepoErr>,
    >(
        state_repository: &mut Repo,
        ctx: &<Self::Decide as DeciderWithContext>::Ctx,
        cmd: &<Self::Decide as DeciderWithContext>::Cmd,
        retrys: Option<u32>,
    ) -> (res: Result<
        <Self::Decide as Evolver>::State,
        ReifyDecideSaveError<<Self::Decide as DeciderWithContext>::DomainErr, RepoErr>,
    >)
        requires
            old(state_repository).inv(),
        ensures
            final(state_repository).inv(),
            old(state_repository).reliable() && retrys != Some(0u32) ==> res is Ok
                || res matches Err(ReifyDecideSaveError::DecideErr(_)),
            conflicts_met(
                final(state_repository).refusals().count - old(state_repository).refusals().count,
                attempts_allowed(retrys),
                res is Ok || res matches Err(ReifyDecideSaveError::DecideErr(_)),
                res matches Err(ReifyDecideSaveError::OccMaxRetries),
            ),
            reify_carried_out::<Self::Decide, RepoErr>(
                *ctx,
                *cmd,
                old(state_repository).state(),
                final(state_repository).state(),
                res,
            ),
            res is Err && !(res->Err_0 is RepositoryErr) ==> final(state_repository).version()
                == old(state_repository).version(),
    {
        let begun = ReifyRun::<Self::Decide, Repo::Version, RepoErr>::start(retrys);
        let mut run = begun.0;
        let mut action = begun.1;
        loop
            invariant
                state_repository.inv(),
                !(action is Done) ==> state_repository.reliable() == old(
                    state_repository,
                ).reliable(),
                run.inv(),
                run.max_retries() == attempts_allowed(retrys),
                state_repository.refusals().count >= old(state_repository).refusals().count,
                match action {
                    ReifyAction::Reify => {
                        &&& state_repository.state() == old(state_repository).state()
                        &&& state_repository.version() == old(state_repository).version()
                        &&& run.attempts() == state_repository.refusals().count - old(
                            state_repository,
                        ).refusals().count
                        &&& old(state_repository).reliable() ==> run.attempts() == 0
                    },
                    ReifyAction::Save { version, state } => {
                        &&& state_repository.state() == old(state_repository).state()
                        &&& state_repository.version() == old(state_repository).version()
                        &&& run.attempts() == state_repository.refusals().count - old(
                            state_repository,
                        ).refusals().count + 1
                        &&& version == state_repository.version()
                        &&& exists|batch: Seq<<<Self::Decide as Evolver>::Evt as View>::V>|
                            {
                                &&& #[trigger] <Self::Decide as DeciderWithContext>::decides(
                                    *ctx,
                                    old(state_repository).state(),
                                    *cmd,
                                    Ok(batch),
                                )
                                &&& state@ == fold_events::<Self::Decide>(
                                    old(state_repository).state(),
                                    batch,
                                )
                            }
                    },
                    ReifyAction::Done(outcome) => {
                        &&& reify_carried_out::<Self::Decide, RepoErr>(
                            *ctx,
                            *cmd,
                            old(state_repository).state(),
                            state_repository.state(),
                            outcome,
                        )
                        &&& conflicts_met(
                            state_repository.refusals().count - old(
                                state_repository,
                            ).refusals().count,
                            attempts_allowed(retrys),
                            outcome is Ok || outcome matches Err(ReifyDecideSaveError::DecideErr(_)),
                            outcome matches Err(ReifyDecideSaveError::OccMaxRetries),
                        )
                        &&& outcome is Err && !(outcome->Err_0 is RepositoryErr)
                            ==> state_repository.version() == old(state_repository).version()
                        &&& old(state_repository).reliable() && retrys != Some(0u32)
                            ==> outcome is Ok || outcome matches Err(
                            ReifyDecideSaveError::DecideErr(_),
                        )
                    },
                },
            decreases run.max_retries() - run.attempts(), reify_calls_ahead(action),
        {
            proof {
                run.lemma_attempts_bounded();
            }
            let next = match action {
                ReifyAction::Reify => {
                    let answer = state_repository.reify();
                    run.reified(ctx, cmd, answer)
                },
                ReifyAction::Save { version, state } => {
                    let answer = state_repository.save(&version, &state);
                    run.saved(answer)
                },
                ReifyAction::Done(outcome) => {
                    return outcome;
                },
            };
            proof {
                next.0.lemma_attempts_bounded();
            }
            run = next.0;
            action = next.1;
        }
    }
}

/// A command, the events that it brought about, and the state that they led to.
pub struct CommandResponse<D: DeciderWithContext>(
    pub <D as DeciderWithContext>::Cmd,
    pub Vec<<D as Evolver>::Evt>,
    pub <D as Evolver>::State,
);

/// Decides a command and folds what was decided into the state at once,
/// without any repository.
pub trait DecideEvolveWithCommandResponse {
    type Decide: DeciderWithContext;

    /// What `cmd` brings about in `state`, and the state that follows.
    fn response(
        cmd: <Self::Decide as DeciderWithContext>::Cmd,
        state: &<Self::Decide as Evolver>::State,
        ctx: &<Self::Decide as DeciderWithContext>::Ctx,
    ) -> (res: Result<
        CommandResponse<Self::Decide>,
        <Self::Decide as DeciderWithContext>::DomainErr,
    >) where <Self::Decide as Evolver>::State: CloneKeepsView
        ensures
            match res {
                Ok(response) => {
                    &&& response.0 == cmd
                    &&& <Self::Decide as DeciderWithContext>::decides(
                        *ctx,
                        state@,
                        cmd,
                        Ok(views(response.1@)),
                    )
                    &&& response.2@ == fold_events::<Self::Decide>(state@, views(response.1@))
                },
                Err(e) => <Self::Decide as DeciderWithContext>::decides(*ctx, state@, cmd, Err(e)),
            },
    {
        let evts = match <Self::Decide as DeciderWithContext>::decide(ctx, state, &cmd) {
            Ok(evts) => evts,
            Err(e) => {
                return Err(e);
            },
        };
        let start = state.clone();
        proof {
            <Self::Decide as Evolver>::State::lemma_clone_keeps_view(*state, start);
        }
        let state = fold_state::<Self::Decide>(start, &evts);
        Ok(CommandResponse(cmd, evts, state))
    }
}

} // verus!
