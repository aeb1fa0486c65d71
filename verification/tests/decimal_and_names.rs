use event_sourcing::decimal::{parse_usize, usize_to_decimal};
use event_sourcing::event_store::stream_id;
use event_sourcing::repository::esdb::{
    append_failure, collect_resolved, current_revision_to_version, get_stream, read_failure,
    version_to_esdb_position, version_to_expected_revision, CurrentRevision, ExpectedRevision,
    ResolvedEntry, StreamPosition,
};
use event_sourcing::repository::esdb::error::Error;
use event_sourcing::repository::redis::{RedisVersion, RedisVersionError};
use event_sourcing::repository::{RepositoryVersion, VersionedRepositoryError};

#[test]
fn numbers_are_read_as_std_reads_them() {
    for text in [
        "0", "7", "42", "007", "+5", "+", "", "-5", "5-", " 5", "5 ", "1_000", "12a", "٣",
        "18446744073709551615", "18446744073709551616", "99999999999999999999999",
        "4294967295", "4294967296", "++1", "+-1",
    ] {
        assert_eq!(parse_usize(text), text.parse::<usize>().ok(), "{:?}", text);
    }
}

#[test]
fn numbers_are_written_as_std_writes_them() {
    for n in [0usize, 1, 9, 10, 11, 99, 100, 101, 1686947654949, usize::MAX] {
        assert_eq!(usize_to_decimal(n), n.to_string());
        assert_eq!(parse_usize(&usize_to_decimal(n)), Some(n));
    }
}

fn parts(text: &str) -> Option<String> {
    RedisVersion::try_from(text).ok().map(|v| v.to_string())
}

#[test]
fn versions_are_two_numbers_around_a_dash() {
    assert_eq!(parts("1-2"), Some("1-2".to_string()));
    assert_eq!(parts("0-0"), Some("0-0".to_string()));
    assert_eq!(parts("+1-+2"), Some("1-2".to_string()));
    assert_eq!(parts("001-002"), Some("1-2".to_string()));
    assert_eq!(parts("1-2-3"), Some("1-2".to_string()));
    assert_eq!(parts("1-2-"), Some("1-2".to_string()));
    assert_eq!(parts("1-2-x"), Some("1-2".to_string()));
    for bad in ["", "-", "1", "1-", "-1", "--", "a-1", "1-a", "1 - 2", "1--2", "-1-2"] {
        match RedisVersion::try_from(bad) {
            Err(RedisVersionError::ParseVersion(text)) => assert_eq!(text, bad),
            Ok(v) => panic!("{:?} was read as {}", bad, v.to_string()),
        }
    }
}

#[test]
fn versions_are_ordered_by_time_and_then_by_number() {
    let v = |text: &str| RedisVersion::try_from(text).unwrap();
    assert!(v("1-9") < v("2-0"));
    assert!(v("2-0") < v("2-1"));
    assert!(v("10-0") > v("9-9"));
    assert!(v("3-3") == v("3-3"));
    assert!(v("3-3") <= v("3-3"));
    assert!(v("1-9").precedes(&v("2-0")));
    assert!(!v("2-0").precedes(&v("1-9")));
    assert!(!v("2-0").precedes(&v("2-0")));
    assert_eq!(v("1-9").partial_cmp(&v("2-0")), Some(std::cmp::Ordering::Less));
    assert_eq!(v("2-1").partial_cmp(&v("2-0")), Some(std::cmp::Ordering::Greater));
    assert_eq!(v("2-1").partial_cmp(&v("2-1")), Some(std::cmp::Ordering::Equal));
    assert_eq!(v("1-9").cmp(&v("2-0")), std::cmp::Ordering::Less);
}

#[test]
fn constructor_with_different_stream_names() {
    let test_cases = vec![
        "simple",
        "with-dashes",
        "with_underscores",
        "WithCamelCase",
        "with.dots",
        "123numeric",
        "mixed-123_test.stream",
    ];

    for stream_name in test_cases {
        let stream_no_id = get_stream(stream_name, None);
        let expected_category = format!("$ce-{}", stream_name);
        assert_eq!(stream_no_id, expected_category);

        let stream_with_id = get_stream(stream_name, Some(&"test_id".to_string()));
        let expected_stream = format!("{}-test_id", stream_name);
        assert_eq!(stream_with_id, expected_stream);
    }
}

#[test]
fn constructor_with_empty_stream_name() {
    let category_stream = get_stream("", None);
    assert_eq!(category_stream, "$ce-");

    let individual_stream = get_stream("", Some(&"123".to_string()));
    assert_eq!(individual_stream, "-123");
}

#[test]
fn constructor_stream_formatting_edge_cases() {
    let category = get_stream("test/stream", None);
    assert_eq!(category, "$ce-test/stream");

    let individual = get_stream("test/stream", Some(&"id/with/slashes".to_string()));
    assert_eq!(individual, "test/stream-id/with/slashes");

    let empty_id = get_stream("test/stream", Some(&"".to_string()));
    assert_eq!(empty_id, "test/stream-");

    let none_id = get_stream("test/stream", None);
    assert_eq!(none_id, "$ce-test/stream");

    assert_ne!(empty_id, none_id);
}

#[test]
fn a_read_of_what_follows_a_version_starts_behind_it() {
    assert_eq!(
        version_to_esdb_position(&RepositoryVersion::Exact(5)),
        StreamPosition::Position(6)
    );
    assert_eq!(
        version_to_esdb_position(&RepositoryVersion::Exact(0)),
        StreamPosition::Position(1)
    );
    if usize::MAX as u64 == u64::MAX {
        assert_eq!(
            version_to_esdb_position(&RepositoryVersion::Exact(usize::MAX)),
            StreamPosition::End
        );
    }
    for other in [
        RepositoryVersion::Any,
        RepositoryVersion::NoStream,
        RepositoryVersion::StreamExists,
    ] {
        assert_eq!(version_to_esdb_position(&other), StreamPosition::Start);
    }
}

#[test]
fn every_guard_goes_to_eventstoredb_as_it_is() {
    assert_eq!(
        version_to_expected_revision(&RepositoryVersion::Any),
        ExpectedRevision::Any
    );
    assert_eq!(
        version_to_expected_revision(&RepositoryVersion::NoStream),
        ExpectedRevision::NoStream
    );
    assert_eq!(
        version_to_expected_revision(&RepositoryVersion::StreamExists),
        ExpectedRevision::StreamExists
    );
    assert_eq!(
        version_to_expected_revision(&RepositoryVersion::Exact(5)),
        ExpectedRevision::Exact(5)
    );
    assert_eq!(
        version_to_expected_revision(&RepositoryVersion::Exact(0)),
        ExpectedRevision::Exact(0)
    );
}

#[test]
fn revisions_that_were_found_are_versions() {
    assert_eq!(
        current_revision_to_version(&CurrentRevision::Current(7)),
        RepositoryVersion::Exact(7)
    );
    assert_eq!(
        current_revision_to_version(&CurrentRevision::NoStream),
        RepositoryVersion::NoStream
    );
}

#[test]
fn a_read_ends_at_the_last_record_and_passes_over_what_is_no_event() {
    let (events, version) = collect_resolved::<u8>(&RepositoryVersion::Any, vec![]);
    assert!(events.is_empty());
    assert_eq!(version, RepositoryVersion::StreamExists);

    let (events, version) = collect_resolved(
        &RepositoryVersion::Any,
        vec![
            ResolvedEntry { revision: 0, event: Some('a') },
            ResolvedEntry { revision: 1, event: None },
            ResolvedEntry { revision: 2, event: Some('c') },
            ResolvedEntry { revision: 3, event: None },
        ],
    );
    assert_eq!(events, vec!['a', 'c']);
    assert_eq!(version, RepositoryVersion::Exact(3));
}

#[test]
fn a_read_that_finds_nothing_new_leaves_the_stream_where_it_stood() {
    let (events, version) = collect_resolved::<u8>(&RepositoryVersion::Exact(4), vec![]);
    assert!(events.is_empty());
    assert_eq!(version, RepositoryVersion::Exact(4));

    let (events, version) = collect_resolved(
        &RepositoryVersion::Exact(4),
        vec![
            ResolvedEntry { revision: 5, event: Some('f') },
            ResolvedEntry { revision: 6, event: Some('g') },
        ],
    );
    assert_eq!(events, vec!['f', 'g']);
    assert_eq!(version, RepositoryVersion::Exact(6));

    for unknown in [RepositoryVersion::NoStream, RepositoryVersion::StreamExists] {
        let (_, version) = collect_resolved::<u8>(&unknown, vec![]);
        assert_eq!(version, RepositoryVersion::StreamExists);
    }
}

#[test]
fn failures_of_eventstoredb_are_told_apart() {
    let read: Result<(Vec<u8>, _), VersionedRepositoryError<Error<&str, ()>, usize>> =
        read_failure(true, "gone");
    assert!(matches!(read, Ok((events, RepositoryVersion::NoStream)) if events.is_empty()));
    let read: Result<(Vec<u8>, _), VersionedRepositoryError<Error<&str, ()>, usize>> =
        read_failure(false, "broken");
    assert!(matches!(
        read,
        Err(VersionedRepositoryError::RepoErr(Error::ReadStream("broken")))
    ));

    let stream = "1".to_string();
    let failure: VersionedRepositoryError<Error<&str, ()>, usize> = append_failure(
        &RepositoryVersion::Exact(3),
        &stream,
        Some(CurrentRevision::Current(5)),
        "wrong",
    );
    match failure {
        VersionedRepositoryError::VersionConflict(diff) => {
            assert_eq!(diff.expected(), RepositoryVersion::Exact(3));
            assert_eq!(diff.actual(), RepositoryVersion::Exact(5));
        }
        _ => panic!("a wrong expected version is a conflict"),
    }
    let failure: VersionedRepositoryError<Error<&str, ()>, usize> = append_failure(
        &RepositoryVersion::NoStream,
        &stream,
        Some(CurrentRevision::NoStream),
        "wrong",
    );
    match failure {
        VersionedRepositoryError::VersionConflict(diff) => {
            assert_eq!(diff.expected(), RepositoryVersion::NoStream);
            assert_eq!(diff.actual(), RepositoryVersion::NoStream);
        }
        _ => panic!("a wrong expected version is a conflict"),
    }
    let failure: VersionedRepositoryError<Error<&str, ()>, usize> =
        append_failure(&RepositoryVersion::Any, &stream, None, "closed");
    assert!(matches!(
        failure,
        VersionedRepositoryError::RepoErr(Error::WriteStream(name, "closed")) if name == "1"
    ));
}

#[test]
fn streams_of_a_context_are_named_after_it() {
    assert_eq!(stream_id(false, "users", None), "users");
    assert_eq!(stream_id(true, "users", None), "test_users");
    assert_eq!(stream_id(false, "users", Some("7")), "users/7");
    assert_eq!(stream_id(true, "users", Some("7")), "users/7");
    assert_eq!(stream_id(true, "", Some("")), "/");
}
