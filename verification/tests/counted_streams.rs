use event_sourcing::decider::repository::in_memory::{
    InMemoryStreamVersion, SimpleInMemoryEventRepository,
    StreamedVersionedInMemoryEventRepository, StreamedVersionedInMemoryEventRepositoryError,
};
use event_sourcing::repository::event::EventRepository;
use event_sourcing::repository::RepositoryVersion;
use event_sourcing::strategies::reify_run::{ReifyAction, ReifyRun};
use event_sourcing::strategies::ReifyDecideSaveError;
use event_sourcing::test_helpers::deciders::user::ctx::UserDeciderCtx;
use event_sourcing::test_helpers::deciders::user::{
    Guitar, User, UserCommand, UserDecider, UserDeciderError, UserDeciderState, UserEvent, UserName,
};
use event_sourcing::repository::VersionedRepositoryError;
use event_sourcing::repository::VersionDiff;
use std::collections::HashMap;

fn added(id: usize, name: &str) -> UserEvent {
    UserEvent::UserAdded(User::new(id, UserName::try_from(name).unwrap()))
}

fn renamed(id: usize, name: &str) -> UserEvent {
    UserEvent::UserNameUpdated(id, UserName::try_from(name).unwrap())
}

#[test]
fn a_simple_log_keeps_what_is_appended_in_order() {
    let mut log = SimpleInMemoryEventRepository::<UserEvent>::new();
    assert!(log.load().unwrap().is_empty());
    assert_eq!(log.append(&vec![added(1, "Mike")]).unwrap(), vec![added(1, "Mike")]);
    log.append(&vec![renamed(1, "Mike2"), renamed(1, "Mike3")]).unwrap();
    assert_eq!(
        log.load().unwrap(),
        vec![added(1, "Mike"), renamed(1, "Mike2"), renamed(1, "Mike3")]
    );
}

#[test]
fn streams_stand_at_the_number_of_their_events() {
    let mut repository = StreamedVersionedInMemoryEventRepository::<UserEvent>::new("test");
    let id = "1".to_string();

    let (events, version) = repository.load(Some(&id)).unwrap();
    assert!(events.is_empty());
    assert_eq!(version, InMemoryStreamVersion::Exact(0));

    let (appended, version) = repository
        .append(&InMemoryStreamVersion::Exact(0), &id, &vec![added(1, "Mike"), renamed(1, "Mike2")])
        .unwrap();
    assert_eq!(appended, vec![added(1, "Mike"), renamed(1, "Mike2")]);
    assert_eq!(version, InMemoryStreamVersion::Exact(2));

    for stale in [0usize, 1, 3] {
        let res = repository.append(
            &InMemoryStreamVersion::Exact(stale),
            &id,
            &vec![renamed(1, "Mike3")],
        );
        assert!(matches!(
            res,
            Err(StreamedVersionedInMemoryEventRepositoryError::VersionConflict)
        ));
    }
    assert_eq!(repository.load(Some(&id)).unwrap().0.len(), 2);

    let (_, version) = repository
        .append(&InMemoryStreamVersion::Exact(2), &id, &vec![renamed(1, "Mike3")])
        .unwrap();
    assert_eq!(version, InMemoryStreamVersion::Exact(3));
    let (_, version) = repository
        .append(&InMemoryStreamVersion::Any, &id, &vec![renamed(1, "Mike4")])
        .unwrap();
    assert_eq!(version, InMemoryStreamVersion::Exact(4));
    let (_, version) = repository
        .append(&InMemoryStreamVersion::Any, &"2".to_string(), &vec![added(2, "Stella")])
        .unwrap();
    assert_eq!(version, InMemoryStreamVersion::Exact(1));

    let (tail, version) = repository
        .load_from_version(&InMemoryStreamVersion::Exact(2), Some(&id))
        .unwrap();
    assert_eq!(tail, vec![renamed(1, "Mike3"), renamed(1, "Mike4")]);
    assert_eq!(version, InMemoryStreamVersion::Exact(4));
    let (tail, _) = repository
        .load_from_version(&InMemoryStreamVersion::Exact(9), Some(&id))
        .unwrap();
    assert!(tail.is_empty());
    let (all, version) = repository.load(None).unwrap();
    assert_eq!(all.len(), 5);
    assert_eq!(version, InMemoryStreamVersion::Exact(5));
}

type Step = (
    ReifyRun<UserDecider, usize, &'static str>,
    ReifyAction<UserDeciderState, usize, UserDeciderError, &'static str>,
);

fn mike(guitars: &[&str]) -> UserDeciderState {
    let mut user = User::new(1, UserName::try_from("Mike").unwrap());
    for brand in guitars {
        user.guitars.push(Guitar { brand: brand.to_string() });
    }
    UserDeciderState::new(HashMap::from([(1, user)]))
}

fn conflict() -> VersionedRepositoryError<&'static str, usize> {
    VersionedRepositoryError::VersionConflict(VersionDiff::new(
        RepositoryVersion::Exact(0),
        RepositoryVersion::Exact(1),
    ))
}

#[test]
fn a_run_on_a_state_reads_decides_and_saves() {
    let ctx = UserDeciderCtx::new();
    let cmd = UserCommand::AddGuitar(1, Guitar { brand: "Fender".to_string() });
    let (run, action): Step = ReifyRun::start(None);
    assert!(matches!(action, ReifyAction::Reify));

    let (run, action) = run.reified(&ctx, &cmd, Ok((mike(&[]), RepositoryVersion::Exact(0))));
    let folded = match action {
        ReifyAction::Save { version, state } => {
            assert_eq!(version, RepositoryVersion::Exact(0));
            state
        }
        _ => panic!("what was decided is to be saved"),
    };
    assert_eq!(folded, mike(&["Fender"]));

    let (_, action) = run.saved(Ok(mike(&["Fender"])));
    assert!(matches!(action, ReifyAction::Done(Ok(state)) if state == mike(&["Fender"])));
}

#[test]
fn a_run_on_a_state_that_meets_a_conflict_reads_and_decides_again() {
    let ctx = UserDeciderCtx::new();
    let cmd = UserCommand::AddGuitar(1, Guitar { brand: "Fender".to_string() });
    let (run, _): Step = ReifyRun::start(Some(2));
    let (run, _) = run.reified(&ctx, &cmd, Ok((mike(&[]), RepositoryVersion::Exact(0))));
    let (run, action) = run.saved(Err(conflict()));
    assert!(matches!(action, ReifyAction::Reify));

    let (run, action) = run.reified(&ctx, &cmd, Ok((mike(&["Gibson"]), RepositoryVersion::Exact(1))));
    assert!(matches!(
        &action,
        ReifyAction::Save { version: RepositoryVersion::Exact(1), state } if state == &mike(&["Gibson", "Fender"])
    ));
    let (run, action) = run.saved(Err(conflict()));
    assert!(matches!(action, ReifyAction::Reify));

    let (_, action) = run.reified(&ctx, &cmd, Ok((mike(&["Gibson"]), RepositoryVersion::Exact(2))));
    assert!(matches!(action, ReifyAction::Done(Err(ReifyDecideSaveError::OccMaxRetries))));
}

#[test]
fn a_run_on_a_state_ends_with_a_refusal_or_a_failure() {
    let ctx = UserDeciderCtx::new();
    let cmd = UserCommand::AddGuitar(1, Guitar { brand: "Fender".to_string() });
    let start = || -> Step { ReifyRun::start(None) };

    let (_, action) = start().0.reified(&ctx, &cmd, Err("down"));
    assert!(matches!(action, ReifyAction::Done(Err(ReifyDecideSaveError::RepositoryErr("down")))));

    let (_, action) = start().0.reified(
        &ctx,
        &cmd,
        Ok((mike(&["Fender"]), RepositoryVersion::Exact(3))),
    );
    assert!(matches!(
        action,
        ReifyAction::Done(Err(ReifyDecideSaveError::DecideErr(UserDeciderError::AlreadyHasGuitar(_))))
    ));

    let (run, _) = start().0.reified(&ctx, &cmd, Ok((mike(&[]), RepositoryVersion::Exact(0))));
    let (_, action) = run.saved(Err(VersionedRepositoryError::RepoErr("down")));
    assert!(matches!(action, ReifyAction::Done(Err(ReifyDecideSaveError::RepositoryErr("down")))));

    let (_, action): Step = ReifyRun::start(Some(0));
    assert!(matches!(action, ReifyAction::Reify));
    let (_, action) = ReifyRun::<UserDecider, usize, &'static str>::start(Some(0))
        .0
        .reified(&ctx, &cmd, Ok((mike(&[]), RepositoryVersion::Exact(0))));
    assert!(matches!(action, ReifyAction::Done(Err(ReifyDecideSaveError::OccMaxRetries))));
}
