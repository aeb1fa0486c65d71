use std::sync::atomic::{AtomicU32, Ordering};

use event_sourcing::repository::in_memory::versioned_with_streams::InMemoryEventRepository;
use event_sourcing::repository::event::{Logs, Refusals, VersionedEventRepositoryWithStreams};
use event_sourcing::repository::in_memory::versioned_with_streams::error::Error;
use event_sourcing::repository::{RepositoryVersion, VersionDiff, VersionedRepositoryError};
use event_sourcing::strategies::run::{Action, Run};
use event_sourcing::strategies::{LoadDecideAppend, LoadDecideAppendError, StreamState};
use event_sourcing::test_helpers::deciders::user::ctx::UserDeciderCtx;
use event_sourcing::test_helpers::deciders::user::{
    Guitar, User, UserCommand, UserDecider, UserDeciderError, UserEvent, UserEventView, UserName,
};

type Answer = Result<
    (Vec<UserEvent>, RepositoryVersion<usize>),
    VersionedRepositoryError<&'static str, usize>,
>;

fn mike() -> UserEvent {
    UserEvent::UserAdded(User::new(1, UserName::try_from("Mike").unwrap()))
}

fn guitar(brand: &str) -> Guitar {
    Guitar { brand: brand.to_string() }
}

fn conflict() -> Answer {
    Err(VersionedRepositoryError::VersionConflict(VersionDiff::new(
        RepositoryVersion::Exact(0),
        RepositoryVersion::Exact(1),
    )))
}

#[test]
fn a_run_on_a_known_stream_loads_decides_and_appends() {
    let ctx = UserDeciderCtx::new();
    let cmd = UserCommand::AddGuitar(1, guitar("Fender"));
    let (run, action) = Run::<UserDecider, usize, &'static str>::start(
        &StreamState::Existing("1".to_string()),
        &ctx,
        &cmd,
        None,
    );
    assert!(matches!(action, Action::Load { stream } if stream == "1"));

    let (run, action) = run.observed(&ctx, &cmd, Ok((vec![mike()], RepositoryVersion::Exact(0))));
    let events = match action {
        Action::Append { version, stream, events } => {
            assert_eq!(version, RepositoryVersion::Exact(0));
            assert_eq!(stream, "1");
            events
        }
        _ => panic!("the decider produced an event to append"),
    };
    assert_eq!(events, vec![UserEvent::UserGuitarAdded(1, guitar("Fender"))]);

    let (_, action) = run.appended(
        "1".to_string(),
        Ok((events, RepositoryVersion::Exact(1))),
    );
    assert!(matches!(
        action,
        Action::Done(Ok(appended)) if appended == vec![UserEvent::UserGuitarAdded(1, guitar("Fender"))]
    ));
}

#[test]
fn a_run_that_meets_a_conflict_waits_catches_up_and_decides_again() {
    let ctx = UserDeciderCtx::new();
    let cmd = UserCommand::AddGuitar(1, guitar("Fender"));
    let (run, _) = Run::<UserDecider, usize, &'static str>::start(
        &StreamState::Existing("1".to_string()),
        &ctx,
        &cmd,
        None,
    );
    let (run, _) = run.observed(&ctx, &cmd, Ok((vec![mike()], RepositoryVersion::Exact(0))));

    let (run, action) = run.appended("1".to_string(), conflict());
    match action {
        Action::CatchUp { nanos, version, stream } => {
            assert_eq!(nanos, 100_000_000);
            assert_eq!(version, RepositoryVersion::Exact(0));
            assert_eq!(stream, "1");
        }
        _ => panic!("a conflict is caught up with"),
    }

    let (run, action) = run.observed(
        &ctx,
        &cmd,
        Ok((
            vec![UserEvent::UserGuitarAdded(1, guitar("Gibson"))],
            RepositoryVersion::Exact(1),
        )),
    );
    assert!(matches!(
        &action,
        Action::Append { version: RepositoryVersion::Exact(1), stream, events }
            if stream == "1" && events == &vec![UserEvent::UserGuitarAdded(1, guitar("Fender"))]
    ));

    let (run, action) = run.appended("1".to_string(), conflict());
    assert!(matches!(action, Action::CatchUp { nanos: 200_000_000, .. }));

    let (_, action) = run.observed(
        &ctx,
        &cmd,
        Ok((
            vec![UserEvent::UserGuitarAdded(1, guitar("Fender"))],
            RepositoryVersion::Exact(2),
        )),
    );
    assert!(matches!(
        action,
        Action::Done(Err(LoadDecideAppendError::DecideErr(UserDeciderError::AlreadyHasGuitar(Guitar { brand })))) if brand == "Fender"
    ));
}

#[test]
fn a_run_ends_when_its_attempts_are_used_up() {
    let ctx = UserDeciderCtx::new();
    let cmd = UserCommand::AddGuitar(1, guitar("Fender"));
    let (run, _) = Run::<UserDecider, usize, &'static str>::start(
        &StreamState::Existing("1".to_string()),
        &ctx,
        &cmd,
        Some(1),
    );
    let (run, action) = run.observed(&ctx, &cmd, Ok((vec![mike()], RepositoryVersion::Exact(0))));
    assert!(matches!(action, Action::Append { .. }));
    let (run, action) = run.appended("1".to_string(), conflict());
    assert!(matches!(action, Action::CatchUp { .. }));
    let (_, action) = run.observed(&ctx, &cmd, Ok((vec![], RepositoryVersion::Exact(1))));
    assert!(matches!(action, Action::Done(Err(LoadDecideAppendError::OccMaxRetries))));

    let (run, action) = Run::<UserDecider, usize, &'static str>::start(
        &StreamState::Existing("1".to_string()),
        &ctx,
        &cmd,
        Some(0),
    );
    assert!(matches!(action, Action::Load { .. }));
    let (_, action) = run.observed(&ctx, &cmd, Ok((vec![mike()], RepositoryVersion::Exact(0))));
    assert!(matches!(action, Action::Done(Err(LoadDecideAppendError::OccMaxRetries))));
}

#[test]
fn a_run_ends_with_the_failure_of_the_repository() {
    let ctx = UserDeciderCtx::new();
    let cmd = UserCommand::AddGuitar(1, guitar("Fender"));
    let start = || {
        Run::<UserDecider, usize, &'static str>::start(
            &StreamState::Existing("1".to_string()),
            &ctx,
            &cmd,
            None,
        )
        .0
    };
    let (_, action) = start().observed(&ctx, &cmd, Err(VersionedRepositoryError::RepoErr("down")));
    assert!(matches!(action, Action::Done(Err(LoadDecideAppendError::RepositoryErr("down")))));
    let (_, action) = start().observed(&ctx, &cmd, conflict());
    assert!(matches!(action, Action::Done(Err(LoadDecideAppendError::VersionError))));

    let (run, _) = start().observed(&ctx, &cmd, Ok((vec![mike()], RepositoryVersion::Exact(0))));
    let (_, action) = run.appended("1".to_string(), Err(VersionedRepositoryError::RepoErr("down")));
    assert!(matches!(action, Action::Done(Err(LoadDecideAppendError::RepositoryErr("down")))));
}

#[test]
fn a_run_on_a_new_entity_decides_at_once() {
    let ctx = UserDeciderCtx::new();
    let (_, action) = Run::<UserDecider, usize, &'static str>::start(
        &StreamState::New,
        &ctx,
        &UserCommand::AddUser("Mike".to_string()),
        None,
    );
    assert!(matches!(
        action,
        Action::Append { version: RepositoryVersion::NoStream, stream, events }
            if stream == "1" && events == vec![mike()]
    ));

    let (_, action) = Run::<UserDecider, usize, &'static str>::start(
        &StreamState::New,
        &ctx,
        &UserCommand::AddUser("".to_string()),
        None,
    );
    assert!(matches!(action, Action::Done(Err(LoadDecideAppendError::DecideErr(_)))));

    let (_, action) = Run::<UserDecider, usize, &'static str>::start(
        &StreamState::New,
        &ctx,
        &UserCommand::AddUser("Mike".to_string()),
        Some(0),
    );
    assert!(matches!(action, Action::Done(Err(LoadDecideAppendError::OccMaxRetries))));
}

#[test]
fn failed_reads_are_told_apart() {
    let conflict: VersionedRepositoryError<&str, usize> = VersionedRepositoryError::VersionConflict(
        VersionDiff::new(RepositoryVersion::Exact(0), RepositoryVersion::Exact(1)),
    );
    let mapped: LoadDecideAppendError<(), &str> = UserDecider::to_lda_error(conflict);
    assert!(matches!(mapped, LoadDecideAppendError::VersionError));
    let down: VersionedRepositoryError<&str, usize> = VersionedRepositoryError::RepoErr("down");
    let mapped: LoadDecideAppendError<(), &str> = UserDecider::to_lda_error(down);
    assert!(matches!(mapped, LoadDecideAppendError::RepositoryErr("down")));
}

/// Refuses the first appends, as if another writer had come first.
struct Refusing {
    inner: InMemoryEventRepository<UserEvent>,
    refusals: usize,
}

impl VersionedEventRepositoryWithStreams<UserEvent, Error> for Refusing {
    type Version = usize;

    fn inv(&self) -> bool {
        unreachable!("only contracts speak of this")
    }

    fn reliable(&self) -> bool {
        unreachable!("only contracts speak of this")
    }

    fn refusals(&self) -> Refusals {
        unreachable!("only contracts speak of this")
    }

    fn logs(&self) -> Logs<UserEventView, usize> {
        unreachable!("only contracts speak of this")
    }

    fn version_lt(_: usize, _: usize) -> bool {
        unreachable!("only contracts speak of this")
    }

    fn load(
        &self,
        id: Option<&String>,
    ) -> Result<(Vec<UserEvent>, RepositoryVersion<usize>), VersionedRepositoryError<Error, usize>>
    {
        self.inner.load(id)
    }

    fn load_from_version(
        &self,
        version: &RepositoryVersion<usize>,
        id: Option<&String>,
    ) -> Result<(Vec<UserEvent>, RepositoryVersion<usize>), VersionedRepositoryError<Error, usize>>
    {
        self.inner.load_from_version(version, id)
    }

    fn append(
        &mut self,
        version: &RepositoryVersion<usize>,
        stream: &String,
        events: &Vec<UserEvent>,
    ) -> Result<(Vec<UserEvent>, RepositoryVersion<usize>), VersionedRepositoryError<Error, usize>>
    {
        if self.refusals > 0 {
            self.refusals -= 1;
            return Err(VersionedRepositoryError::VersionConflict(VersionDiff::new(
                *version,
                self.inner.load(Some(stream)).unwrap().1,
            )));
        }
        self.inner.append(version, stream, events)
    }
}

static PAUSED: AtomicU32 = AtomicU32::new(0);

struct Patient;

impl LoadDecideAppend for Patient {
    type Decide = UserDecider;

    fn pause(nanos: u32) {
        PAUSED.fetch_add(nanos / 100_000_000, Ordering::SeqCst);
    }
}

#[test]
fn the_strategy_pauses_longer_after_every_conflict() {
    let ctx = UserDeciderCtx::new();
    let mut inner = InMemoryEventRepository::<UserEvent>::new("test");
    inner
        .append(&RepositoryVersion::NoStream, &"1".to_string(), &vec![mike()])
        .unwrap();
    let mut repository = Refusing { inner, refusals: 3 };

    let events = Patient::execute(
        &mut repository,
        &StreamState::Existing("1".to_string()),
        &ctx,
        &UserCommand::AddGuitar(1, guitar("Fender")),
        None,
    )
    .unwrap();
    assert_eq!(events, vec![UserEvent::UserGuitarAdded(1, guitar("Fender"))]);
    assert_eq!(PAUSED.load(Ordering::SeqCst), 1 + 2 + 3);
    assert_eq!(repository.inner.load(None).unwrap().0.len(), 2);

    let mut stubborn = Refusing { inner: InMemoryEventRepository::new("test"), refusals: 100 };
    stubborn
        .inner
        .append(&RepositoryVersion::NoStream, &"1".to_string(), &vec![mike()])
        .unwrap();
    let res = UserDecider::execute(
        &mut stubborn,
        &StreamState::Existing("1".to_string()),
        &ctx,
        &UserCommand::AddGuitar(1, guitar("Fender")),
        None,
    );
    assert!(matches!(res, Err(LoadDecideAppendError::OccMaxRetries)));
    assert_eq!(stubborn.refusals, 80);
    assert_eq!(stubborn.inner.load(None).unwrap().0.len(), 1);
}

const BRANDS: [&str; 9] = [
    "Ibanez",
    "Gibson",
    "Fender",
    "Eastman",
    "Meyones",
    "PRS",
    "Yamaha",
    "Benedetto",
    "Strandberg",
];

type Writer = (
    Run<UserDecider, usize, Error>,
    Action<UserEvent, usize, UserDeciderError, Error>,
);

#[test]
fn nine_writers_that_take_turns_call_by_call_all_get_their_guitar_in() {
    let ctx = UserDeciderCtx::new();
    let mut repository = InMemoryEventRepository::<UserEvent>::new("test");
    repository
        .append(&RepositoryVersion::NoStream, &"1".to_string(), &vec![mike()])
        .unwrap();

    let cmds: Vec<UserCommand> = BRANDS
        .iter()
        .map(|brand| UserCommand::AddGuitar(1, guitar(brand)))
        .collect();
    let mut writers: Vec<Option<Writer>> = cmds
        .iter()
        .map(|cmd| Some(Run::start(&StreamState::Existing("1".to_string()), &ctx, cmd, None)))
        .collect();
    let mut written: Vec<Vec<UserEvent>> = vec![];
    let mut conflicts = 0;
    let mut calls = 0;

    while writers.iter().any(|writer| writer.is_some()) {
        for (writer, cmd) in writers.iter_mut().zip(cmds.iter()) {
            let (run, action) = match writer.take() {
                Some(at) => at,
                None => continue,
            };
            calls += 1;
            assert!(calls < 1000, "the writers do not come to an end");
            *writer = match action {
                Action::Load { stream } => {
                    let answer = repository.load(Some(&stream));
                    Some(run.observed(&ctx, cmd, answer))
                }
                Action::Append { version, stream, events } => {
                    let answer = repository.append(&version, &stream, &events);
                    if answer.is_err() {
                        conflicts += 1;
                    }
                    Some(run.appended(stream, answer))
                }
                Action::CatchUp { version, stream, .. } => {
                    let answer = repository.load_from_version(&version, Some(&stream));
                    Some(run.observed(&ctx, cmd, answer))
                }
                Action::Done(outcome) => {
                    written.push(outcome.ok().expect("every writer gets through"));
                    None
                }
            };
        }
    }

    assert_eq!(conflicts, 8 + 7 + 6 + 5 + 4 + 3 + 2 + 1);
    assert_eq!(written.len(), 9);
    let (events, version) = repository.load(Some(&"1".to_string())).unwrap();
    assert_eq!(version, RepositoryVersion::Exact(9));
    assert_eq!(events[0], mike());
    let committed: Vec<UserEvent> = events[1..].to_vec();
    let expected: Vec<UserEvent> = BRANDS
        .iter()
        .map(|brand| UserEvent::UserGuitarAdded(1, guitar(brand)))
        .collect();
    assert_eq!(committed, expected);
    for batch in &written {
        assert_eq!(batch.len(), 1);
        assert!(committed.contains(&batch[0]));
    }
    assert_eq!(repository.load(None).unwrap().0, events);
}
