use std::collections::HashMap;

use event_sourcing::decider::{Decider, Evolver};
use event_sourcing::repository::event::{EventRepository, VersionedEventRepositoryWithStreams};
use event_sourcing::repository::in_memory::simple;
use event_sourcing::repository::in_memory::state::versioned::InMemoryStateRepository;
use event_sourcing::repository::in_memory::versioned_with_streams::InMemoryEventRepository;
use event_sourcing::repository::in_memory::InMemoryEventRepositoryState;
use event_sourcing::repository::state::{StateRepository, VersionedStateRepository};
use event_sourcing::repository::{
    RepositoryVersion, StreamIdFromEvent, VersionDiff, VersionedRepositoryError,
};
use event_sourcing::test_helpers::deciders::user::{
    Guitar, User, UserCommand, UserDecider, UserDeciderState, UserEvent, UserName,
};
use event_sourcing::test_helpers::ValueType;

fn user(id: usize, name: &str) -> User {
    User::new(id, UserName::try_from(name).expect("Name is valid"))
}

fn renamed(id: usize, name: &str) -> UserEvent {
    UserEvent::UserNameUpdated(id, UserName::try_from(name).expect("Name is valid"))
}

#[test]
fn decider_test_raw_decider() {
    let event_repository: simple::InMemoryEventRepository<UserEvent> =
        simple::InMemoryEventRepository::new();
    let mut state_repository: simple::InMemoryStateRepository<UserDeciderState> =
        simple::InMemoryStateRepository::new();

    let state = event_repository
        .load()
        .expect("Empty Events Vector")
        .iter()
        .fold(UserDecider::init(), UserDecider::evolve);

    let cmd = UserCommand::AddUser("Mike".to_string());
    let events = <UserDecider as Decider>::decide(&state, &cmd).expect("Decider Success");

    if let Some(UserEvent::UserAdded(User { name, id, .. })) = events.first() {
        let user_id = *id;
        let user_name = name.clone();

        assert_eq!(name.value(), "Mike".to_string());

        let state = events.iter().fold(state.clone(), UserDecider::evolve);

        let _ = state_repository.save(&state);
        assert_eq!(state_repository.reify().unwrap(), state.clone());

        assert!(matches!(
            state.users.get(&user_id).expect("User exists"),
            User { id, name, .. } if (id == &user_id && name == &user_name)
        ));
    } else {
        panic!("Events not produced")
    }
}

#[test]
fn mod_test_raw_decider() {
    let mut event_repository: simple::InMemoryEventRepository<UserEvent> =
        simple::InMemoryEventRepository::new();

    let state = event_repository
        .load()
        .expect("Empty Events Vector")
        .iter()
        .fold(UserDecider::init(), UserDecider::evolve);

    let cmd = UserCommand::AddUser("Mike".to_string());
    let events = <UserDecider as Decider>::decide(&state, &cmd).expect("Decider Success");
    assert_eq!(events, vec![UserEvent::UserAdded(user(1, "Mike"))]);

    let appended = event_repository.append(&events).unwrap();
    assert_eq!(appended, events);
    let again = event_repository.append(&vec![renamed(1, "Mike2")]).unwrap();
    assert_eq!(again, vec![renamed(1, "Mike2")]);
    assert_eq!(
        event_repository.load().unwrap(),
        vec![UserEvent::UserAdded(user(1, "Mike")), renamed(1, "Mike2")]
    );
}

#[test]
fn mod_repository_spec_test() {
    let mut event_repository = InMemoryEventRepository::<UserEvent>::new("test");
    let id_1 = "1".to_string();
    let id_2 = "2".to_string();

    let res = event_repository.load(None).expect("loaded");
    assert!(matches!(res, (v, _) if v == vec![] as Vec<UserEvent>));

    let events1 = vec![UserEvent::UserAdded(user(1, "Mike")), renamed(1, "Mike2")];

    let _ = event_repository
        .append(&RepositoryVersion::Any, &id_1, &events1)
        .expect("Successful append");

    let events2 = vec![UserEvent::UserAdded(user(2, "Stella")), renamed(2, "Stella2")];

    let _ = event_repository
        .append(&RepositoryVersion::Any, &id_2, &events2)
        .expect("Successful append");

    let res = event_repository.load(Some(&id_1));
    assert!(matches!(res, Ok((v, RepositoryVersion::Exact(_))) if v == events1));

    let res = event_repository.load(Some(&id_2));
    assert!(matches!(res, Ok((v, RepositoryVersion::Exact(_))) if v == events2));

    let res = event_repository.load(None);

    let events_combined: Vec<UserEvent> = vec![
        UserEvent::UserAdded(user(1, "Mike")),
        renamed(1, "Mike2"),
        UserEvent::UserAdded(user(2, "Stella")),
        renamed(2, "Stella2"),
    ];
    assert!(matches!(res, Ok((v, RepositoryVersion::Exact(_))) if v == events_combined));

    let res = event_repository.load(Some(&id_1));
    let version = res.unwrap().1;
    assert_eq!(version, RepositoryVersion::Exact(1));

    let new_events = vec![renamed(1, "Mike")];

    let res = event_repository
        .append(&version, &id_1, &new_events)
        .expect("Success");
    assert_eq!(res.1, RepositoryVersion::Exact(2));

    let (latest_events, last) = event_repository
        .load_from_version(&version, Some(&id_1))
        .expect("load success");

    assert_eq!(latest_events.first().unwrap(), new_events.first().unwrap());
    assert_eq!(latest_events.len(), 1);
    assert_eq!(last, RepositoryVersion::Exact(2));

    let (nothing, last) = event_repository
        .load_from_version(&res.1, Some(&id_1))
        .expect("load success");
    assert!(nothing.is_empty());
    assert_eq!(last, RepositoryVersion::Exact(2));
}

#[test]
fn versioned_repository_spec_test() {
    let mut state_repository: InMemoryStateRepository<UserDeciderState> =
        InMemoryStateRepository::new(UserDeciderState::default());

    let new_state = UserDeciderState::new(HashMap::from([(1, user(1, "Mike"))]));

    let version = RepositoryVersion::Exact(0);
    let _ = state_repository.save(&version, &new_state).expect("Success");

    assert_eq!(
        state_repository.reify().expect("Success"),
        (new_state.clone(), RepositoryVersion::Exact(1))
    );

    let res = state_repository.save(&version, &new_state);
    assert!(matches!(res, Err(_)));
    match res {
        Err(VersionedRepositoryError::VersionConflict(diff)) => {
            assert_eq!(diff.expected(), RepositoryVersion::Exact(0));
            assert_eq!(diff.actual(), RepositoryVersion::Exact(1));
        }
        _ => panic!("a stale version is a conflict"),
    }
    assert_eq!(
        state_repository.reify().expect("Success"),
        (new_state, RepositoryVersion::Exact(1))
    );
}

#[test]
fn any_accepts_whatever_the_state_repository_holds() {
    let mut state_repository: InMemoryStateRepository<UserDeciderState> =
        InMemoryStateRepository::new(UserDeciderState::default());
    assert_eq!(
        state_repository.reify().unwrap().1,
        RepositoryVersion::StreamExists
    );

    state_repository
        .save(&RepositoryVersion::Any, &UserDeciderState::default())
        .unwrap();
    assert_eq!(state_repository.reify().unwrap().1, RepositoryVersion::Exact(1));
    state_repository
        .save(&RepositoryVersion::Any, &UserDeciderState::default())
        .unwrap();
    assert_eq!(state_repository.reify().unwrap().1, RepositoryVersion::Exact(2));

    let stale = state_repository.save(&RepositoryVersion::NoStream, &UserDeciderState::default());
    assert!(matches!(stale, Err(VersionedRepositoryError::VersionConflict(_))));
    state_repository
        .save(&RepositoryVersion::Exact(2), &UserDeciderState::default())
        .unwrap();
    assert_eq!(state_repository.reify().unwrap().1, RepositoryVersion::Exact(3));
}

#[test]
fn a_state_that_was_never_saved_stands_at_zero() {
    for first in [
        RepositoryVersion::NoStream,
        RepositoryVersion::StreamExists,
        RepositoryVersion::Exact(0),
    ] {
        let mut state_repository: InMemoryStateRepository<UserDeciderState> =
            InMemoryStateRepository::new(UserDeciderState::default());
        state_repository
            .save(&first, &UserDeciderState::default())
            .unwrap();
        assert_eq!(state_repository.reify().unwrap().1, RepositoryVersion::Exact(1));
    }
}

#[test]
fn every_save_comes_to_the_next_version() {
    let mut state_repository: InMemoryStateRepository<UserDeciderState> =
        InMemoryStateRepository::new(UserDeciderState::default());
    let mut version = RepositoryVersion::StreamExists;
    for expected in 1..=3usize {
        state_repository
            .save(&version, &UserDeciderState::default())
            .unwrap();
        version = state_repository.reify().unwrap().1;
        assert_eq!(version, RepositoryVersion::Exact(expected));
    }
}

fn conflict(
    res: Result<
        (Vec<UserEvent>, RepositoryVersion<usize>),
        VersionedRepositoryError<
            event_sourcing::repository::in_memory::versioned_with_streams::error::Error,
            usize,
        >,
    >,
) -> VersionDiff<usize> {
    match res {
        Err(VersionedRepositoryError::VersionConflict(diff)) => diff,
        _ => panic!("the guard should have refused the append"),
    }
}

#[test]
fn guards_of_an_append() {
    let mut repository = InMemoryEventRepository::<UserEvent>::new("test");
    let id = "1".to_string();
    let first = vec![UserEvent::UserAdded(user(1, "Mike"))];
    let next = vec![renamed(1, "Mike2"), renamed(1, "Mike3")];

    let diff = conflict(repository.append(&RepositoryVersion::StreamExists, &id, &first));
    assert_eq!(diff.expected(), RepositoryVersion::StreamExists);
    assert_eq!(diff.actual(), RepositoryVersion::NoStream);
    let diff = conflict(repository.append(&RepositoryVersion::Exact(0), &id, &first));
    assert_eq!(diff.expected(), RepositoryVersion::Exact(0));
    assert_eq!(diff.actual(), RepositoryVersion::NoStream);
    assert!(repository.load(None).unwrap().0.is_empty());

    let (appended, version) = repository
        .append(&RepositoryVersion::NoStream, &id, &first)
        .unwrap();
    assert_eq!(appended, first);
    assert_eq!(version, RepositoryVersion::Exact(0));

    let diff = conflict(repository.append(&RepositoryVersion::NoStream, &id, &next));
    assert_eq!(diff.expected(), RepositoryVersion::NoStream);
    assert_eq!(diff.actual(), RepositoryVersion::Exact(0));
    let diff = conflict(repository.append(&RepositoryVersion::Exact(3), &id, &next));
    assert_eq!(diff.expected(), RepositoryVersion::Exact(3));
    assert_eq!(diff.actual(), RepositoryVersion::Exact(0));
    assert_eq!(repository.load(Some(&id)).unwrap().0, first);
    assert_eq!(repository.load(None).unwrap().0, first);

    let (_, version) = repository
        .append(&RepositoryVersion::Exact(0), &id, &next)
        .unwrap();
    assert_eq!(version, RepositoryVersion::Exact(2));
    let (_, version) = repository
        .append(&RepositoryVersion::StreamExists, &id, &first)
        .unwrap();
    assert_eq!(version, RepositoryVersion::Exact(3));
    let (_, version) = repository
        .append(&RepositoryVersion::Any, &id, &first)
        .unwrap();
    assert_eq!(version, RepositoryVersion::Exact(4));
    let (_, version) = repository
        .append(&RepositoryVersion::Any, &"2".to_string(), &first)
        .unwrap();
    assert_eq!(version, RepositoryVersion::Exact(0));
    assert_eq!(repository.load(None).unwrap().0.len(), 6);
    assert_eq!(repository.load(None).unwrap().1, RepositoryVersion::Exact(5));
}

#[test]
fn loading_twice_gives_the_same() {
    let mut repository = InMemoryEventRepository::<UserEvent>::new("test");
    let id = "1".to_string();
    repository
        .append(
            &RepositoryVersion::Any,
            &id,
            &vec![UserEvent::UserAdded(user(1, "Mike")), renamed(1, "Mike2")],
        )
        .unwrap();
    let once = repository.load(Some(&id)).unwrap();
    let twice = repository.load(Some(&id)).unwrap();
    assert_eq!(once, twice);
    assert_eq!(repository.load(None).unwrap(), repository.load(None).unwrap());
}

#[test]
fn load_from_version_leaves_the_version_itself_out() {
    let mut repository = InMemoryEventRepository::<UserEvent>::new("test");
    let id = "1".to_string();
    let events = vec![
        UserEvent::UserAdded(user(1, "Mike")),
        renamed(1, "Mike2"),
        renamed(1, "Mike3"),
    ];
    repository
        .append(&RepositoryVersion::Any, &id, &events)
        .unwrap();

    let from = |version: RepositoryVersion<usize>| {
        repository
            .load_from_version(&version, Some(&id))
            .unwrap()
            .0
            .len()
    };
    assert_eq!(from(RepositoryVersion::Any), 3);
    assert_eq!(from(RepositoryVersion::NoStream), 3);
    assert_eq!(from(RepositoryVersion::StreamExists), 3);
    assert_eq!(from(RepositoryVersion::Exact(0)), 2);
    assert_eq!(from(RepositoryVersion::Exact(1)), 1);
    assert_eq!(from(RepositoryVersion::Exact(2)), 0);
    assert_eq!(from(RepositoryVersion::Exact(7)), 0);
    assert_eq!(from(RepositoryVersion::Exact(usize::MAX)), 0);

    let (tail, version) = repository
        .load_from_version(&RepositoryVersion::Exact(0), Some(&"9".to_string()))
        .unwrap();
    assert!(tail.is_empty());
    assert_eq!(version, RepositoryVersion::NoStream);
}

#[test]
fn version_diff_keeps_what_it_is_given() {
    let diff = VersionDiff::new(RepositoryVersion::Exact(3usize), RepositoryVersion::Exact(5));
    assert_eq!(diff.expected(), RepositoryVersion::Exact(3));
    assert_eq!(diff.actual(), RepositoryVersion::Exact(5));
    let diff = VersionDiff::<usize>::new(RepositoryVersion::NoStream, RepositoryVersion::StreamExists);
    assert_eq!(diff.expected(), RepositoryVersion::NoStream);
    assert_eq!(diff.actual(), RepositoryVersion::StreamExists);
}

#[test]
fn a_new_stream_state_is_empty() {
    let state = InMemoryEventRepositoryState::<UserEvent>::new();
    assert!(state.events.is_empty());
    assert_eq!(state.position, 0);
}

#[test]
fn stream_ids_are_decimal_entity_ids() {
    let event = UserEvent::UserGuitarAdded(42, Guitar { brand: "PRS".to_string() });
    assert_eq!(<String as StreamIdFromEvent<UserEvent>>::from(event), "42");
    assert_eq!(
        <String as StreamIdFromEvent<UserEvent>>::event_entity_id_into(0),
        "0"
    );
    assert_eq!(
        <String as StreamIdFromEvent<UserEvent>>::event_entity_id_into(usize::MAX),
        usize::MAX.to_string()
    );
}

#[test]
fn evolve_passes_over_events_about_missing_users() {
    let state = UserDecider::evolve(UserDeciderState::default(), &renamed(7, "Nobody"));
    assert!(state.users.is_empty());
    let state = UserDecider::evolve(
        state,
        &UserEvent::UserGuitarAdded(7, Guitar { brand: "PRS".to_string() }),
    );
    assert!(state.users.is_empty());
}

#[test]
fn a_guitar_is_owned_once() {
    let state = UserDecider::evolve(
        UserDeciderState::default(),
        &UserEvent::UserAdded(user(1, "Mike")),
    );
    let guitar = UserEvent::UserGuitarAdded(1, Guitar { brand: "PRS".to_string() });
    let state = UserDecider::evolve(state, &guitar);
    let state = UserDecider::evolve(state, &guitar);
    assert_eq!(state.users[&1].guitars, vec![Guitar { brand: "PRS".to_string() }]);
}

#[test]
fn a_state_repository_starts_with_the_default_state() {
    let by_new: simple::InMemoryStateRepository<UserDeciderState> =
        simple::InMemoryStateRepository::new();
    let by_default: simple::InMemoryStateRepository<UserDeciderState> = Default::default();
    assert_eq!(by_new.reify().unwrap(), UserDeciderState::default());
    assert_eq!(by_default.reify().unwrap(), UserDeciderState::default());
}
