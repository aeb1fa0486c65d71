//! What a repository of events on one Redis stream decides between its calls
//! to Redis: which entries of the stream belong to a stream of events, which
//! version a read or a write ends at, and whether a guard lets a write pass.

use crate::repository::redis::{
    spec_parse_version, RedisRepositoryError, RedisVersion, RedisVersionError,
};
use crate::repository::{RepositoryVersion, VersionDiff, VersionedRepositoryError};
use vstd::prelude::*;

verus! {

/// An event that can be written to a Redis stream as a record, and read back.
pub trait StreamModelDTO<Data, DTOErr>: Sized {
    fn into_dto(self) -> Data;

    fn try_from_dto(model: Data) -> Result<Self, DTOErr>;
}

/// One entry of the Redis stream, as it was read: its id, and either what
/// kept it from being parsed, or the stream of events it belongs to and what
/// converting it to an event gave.
pub struct StreamEntry<E, DTOErr> {
    pub id: String,
    pub content: Result<(String, Result<E, DTOErr>), redis_om::RedisError>,
}

/// Whether `entry` is read for the stream `id`: it belongs to that stream, or
/// every stream is read.
pub open spec fn belongs<E, DTOErr>(entry: StreamEntry<E, DTOErr>, id: Option<Seq<char>>) -> bool {
    match entry.content {
        Ok((stream, _)) => id matches Some(wanted) ==> stream@ == wanted,
        Err(_) => false,
    }
}

/// Whether reading stops at `entry` with an error: it could not be parsed,
/// or it is read for the stream and is no event or has no version for an id.
pub open spec fn fails<E, DTOErr>(entry: StreamEntry<E, DTOErr>, id: Option<Seq<char>>) -> bool {
    match entry.content {
        Ok((_, event)) => belongs(entry, id) && (event is Err || spec_parse_version(entry.id@)
            is None),
        Err(_) => true,
    }
}

/// The index of the first of `entries` at which reading stops with an error,
/// or their number if there is none.
pub open spec fn first_failure<E, DTOErr>(
    entries: Seq<StreamEntry<E, DTOErr>>,
    id: Option<Seq<char>>,
) -> int
    decreases entries.len(),
{
    if entries.len() == 0 {
        0
    } else {
        let before = first_failure(entries.drop_last(), id);
        if before < entries.len() - 1 || fails(entries.last(), id) {
            before
        } else {
            entries.len() as int
        }
    }
}

/// The events of the entries that are read for the stream `id`, in the
/// order of the entries.
pub open spec fn kept<E, DTOErr>(entries: Seq<StreamEntry<E, DTOErr>>, id: Option<Seq<char>>) -> Seq<
    E,
>
    decreases entries.len(),
{
    if entries.len() == 0 {
        Seq::empty()
    } else if belongs(entries.last(), id) {
        kept(entries.drop_last(), id).push(entries.last().content->Ok_0.1->Ok_0)
    } else {
        kept(entries.drop_last(), id)
    }
}

/// The version at which a stream stands before anything that follows
/// `after` is read: at `after` itself if that is exact, and else nowhere.
pub open spec fn version_before(after: RepositoryVersion<RedisVersion>) -> RepositoryVersion<
    (usize, usize),
> {
    match after {
        RepositoryVersion::Exact(exact) => RepositoryVersion::Exact(exact.parts()),
        _ => RepositoryVersion::NoStream,
    }
}

/// The version of the last of the entries that are read for the stream
/// `id`, or `before` if none is.
pub open spec fn last_kept_version<E, DTOErr>(
    before: RepositoryVersion<(usize, usize)>,
    entries: Seq<StreamEntry<E, DTOErr>>,
    id: Option<Seq<char>>,
) -> RepositoryVersion<(usize, usize)>
    decreases entries.len(),
{
    if entries.len() == 0 {
        before
    } else if belongs(entries.last(), id) {
        RepositoryVersion::Exact(spec_parse_version(entries.last().id@)->Some_0)
    } else {
        last_kept_version(before, entries.drop_last(), id)
    }
}

/// A version, with the time and the number in the place of the version of Redis.
pub open spec fn version_parts(version: RepositoryVersion<RedisVersion>) -> RepositoryVersion<
    (usize, usize),
> {
    match version {
        RepositoryVersion::Any => RepositoryVersion::Any,
        RepositoryVersion::Exact(exact) => RepositoryVersion::Exact(exact.parts()),
        RepositoryVersion::NoStream => RepositoryVersion::NoStream,
        RepositoryVersion::StreamExists => RepositoryVersion::StreamExists,
    }
}

/// Whether `error` is the error with which reading stops at `entry`.
pub open spec fn stops_with<E, DTOErr>(
    entry: StreamEntry<E, DTOErr>,
    error: RedisRepositoryError<DTOErr>,
) -> bool {
    match entry.content {
        Err(unparsed) => error == RedisRepositoryError::<DTOErr>::ParseDTO(unparsed),
        Ok((_, Err(unconverted))) => error == RedisRepositoryError::<DTOErr>::FromDTO(unconverted),
        Ok((_, Ok(_))) => error matches RedisRepositoryError::Version(
            RedisVersionError::ParseVersion(text),
        ) && text@ == entry.id@,
    }
}

/// The events of one stream (`Some`), or of all streams (`None`), among the
/// entries of the Redis stream that follow `after`, with the version of the
/// last of them, which is `after` itself where it is exact and none follows.
/// Reading stops at the first entry that cannot be parsed and at the first
/// entry of the stream that is no event or whose id is no version; entries
/// of other streams are passed over, whatever they hold.
pub fn collect_events<E, DTOErr>(
    after: &RepositoryVersion<RedisVersion>,
    entries: Vec<StreamEntry<E, DTOErr>>,
    id: Option<&String>,
) -> (res: Result<
    (Vec<E>, RepositoryVersion<RedisVersion>),
    VersionedRepositoryError<RedisRepositoryError<DTOErr>, RedisVersion>,
>)
    ensures
        match res {
            Ok((events, version)) => {
                &&& first_failure(entries@, crate::repository::event::stream_key(id))
                    == entries@.len()
                &&& events@ == kept(entries@, crate::repository::event::stream_key(id))
                &&& version_parts(version) == last_kept_version(
                    version_before(*after),
                    entries@,
                    crate::repository::event::stream_key(id),
                )
                &&& !(version is Any) && !(version is StreamExists)
            },
            Err(VersionedRepositoryError::RepoErr(error)) => {
                let at = first_failure(entries@, crate::repository::event::stream_key(id));
                &&& 0 <= at < entries@.len()
                &&& stops_with(entries@[at], error)
            },
            Err(VersionedRepositoryError::VersionConflict(_)) => false,
        },
{
    let ghost wanted = crate::repository::event::stream_key(id);
    let ghost all = entries@;
    let ghost before = version_before(*after);
    let mut evts: Vec<E> = Vec::new();
    let mut redis_version: RepositoryVersion<RedisVersion> = match after {
        RepositoryVersion::Exact(exact) => RepositoryVersion::Exact(*exact),
        _ => RepositoryVersion::NoStream,
    };
    for entry in it: entries
        invariant
            all == it.seq(),
            wanted == crate::repository::event::stream_key(id),
            before == version_before(*after),
            first_failure(all.take(it.index() as int), wanted) == it.index(),
            evts@ == kept(all.take(it.index() as int), wanted),
            version_parts(redis_version) == last_kept_version(
                before,
                all.take(it.index() as int),
                wanted,
            ),
            !(redis_version is Any) && !(redis_version is StreamExists),
    {
        let ghost n = it.index() as int;
        proof {
            assert(all.take(n + 1).drop_last() =~= all.take(n));
            assert(all.take(n + 1).last() == entry);
        }
        let StreamEntry { id: entry_id, content } = entry;
        let (stream, event) = match content {
            Ok(parsed) => parsed,
            Err(e) => {
                proof {
                    lemma_first_failure_found(all, wanted, n);
                }
                return Err(VersionedRepositoryError::RepoErr(RedisRepositoryError::ParseDTO(e)));
            },
        };
        let read = match id {
            Some(stream_id) => stream == *stream_id,
            None => true,
        };
        if read {
            let ev = match event {
                Ok(ev) => ev,
                Err(e) => {
                    proof {
                        lemma_first_failure_found(all, wanted, n);
                    }
                    return Err(
                        VersionedRepositoryError::RepoErr(RedisRepositoryError::FromDTO(e)),
                    );
                },
            };
            redis_version = match RedisVersion::parse(entry_id.as_str()) {
                Ok(version) => RepositoryVersion::Exact(version),
                Err(e) => {
                    proof {
                        lemma_first_failure_found(all, wanted, n);
                    }
                    return Err(VersionedRepositoryError::RepoErr(RedisRepositoryError::Version(e)));
                },
            };
            evts.push(ev);
        }
    }
    proof {
        assert(all.take(all.len() as int) =~= all);
    }
    Ok((evts, redis_version))
}

/// Where reading got as far as the entry `n` without an error and stops
/// there, `n` is where it first fails among all entries.
pub proof fn lemma_first_failure_found<E, DTOErr>(
    entries: Seq<StreamEntry<E, DTOErr>>,
    id: Option<Seq<char>>,
    n: int,
)
    requires
        0 <= n < entries.len(),
        first_failure(entries.take(n), id) == n,
        fails(entries[n], id),
    ensures
        first_failure(entries, id) == n,
    decreases entries.len(),
{
    if entries.len() == n + 1 {
        assert(entries.drop_last() =~= entries.take(n));
    } else {
        assert(entries.drop_last().take(n) =~= entries.take(n));
        lemma_first_failure_found(entries.drop_last(), id, n);
    }
}

/// What a writer must learn of the Redis stream before it appends.
pub enum GuardProbe {
    /// Nothing: the append is not guarded.
    Nothing,
    /// The version at which the stream of events stands: that of the last
    /// entry of the Redis stream that belongs to it, which `collect_events`
    /// finds among all entries.
    LastVersion,
}

/// What must be read of the Redis stream before an append that expects
/// `version`: nothing where anything is accepted, and else the version at
/// which the stream stands.
pub fn guard_probe(version: &RepositoryVersion<RedisVersion>) -> (probe: GuardProbe)
    ensures
        probe is Nothing <==> *version is Any,
{
    match version {
        RepositoryVersion::Any => GuardProbe::Nothing,
        _ => GuardProbe::LastVersion,
    }
}

/// Judges the guard of an append that expects `version` to a stream that
/// stands at `observed`: the append may go on if `version` admits what was
/// observed, and else it is refused with what was expected and what was found.
pub fn check_guard(
    version: &RepositoryVersion<RedisVersion>,
    observed: &RepositoryVersion<RedisVersion>,
) -> (res: Result<(), VersionDiff<RedisVersion>>)
    ensures
        res is Ok <==> version.admits(*observed),
        res matches Err(diff) ==> diff.spec_expected() == *version && diff.spec_actual()
            == *observed,
{
    let admitted = match version {
        RepositoryVersion::Any => true,
        RepositoryVersion::Exact(expected) => match observed {
            RepositoryVersion::Exact(found) => *found == *expected,
            _ => false,
        },
        RepositoryVersion::NoStream => match observed {
            RepositoryVersion::NoStream => true,
            _ => false,
        },
        RepositoryVersion::StreamExists => match observed {
            RepositoryVersion::Exact(_) => true,
            RepositoryVersion::StreamExists => true,
            _ => false,
        },
    };
    if admitted {
        Ok(())
    } else {
        Err(VersionDiff::new(*version, *observed))
    }
}

/// The version at which an append ends: that of the last entry that was
/// published, or `NoStream` if nothing was.
pub fn published_version(ids: &Vec<String>) -> (res: Result<
    RepositoryVersion<RedisVersion>,
    RedisVersionError,
>)
    ensures
        match res {
            Ok(version) => if ids@.len() == 0 {
                version is NoStream
            } else {
                version matches RepositoryVersion::Exact(last) && spec_parse_version(
                    ids@.last()@,
                ) == Some(last.parts())
            },
            Err(RedisVersionError::ParseVersion(text)) => {
                &&& ids@.len() > 0
                &&& text@ == ids@.last()@
                &&& spec_parse_version(ids@.last()@) is None
            },
        },
{
    if ids.len() == 0 {
        Ok(RepositoryVersion::NoStream)
    } else {
        match RedisVersion::parse(ids[ids.len() - 1].as_str()) {
            Ok(last) => Ok(RepositoryVersion::Exact(last)),
            Err(e) => Err(e),
        }
    }
}

/// Where a read of what follows `version` starts in the Redis stream:
/// behind the entry of an exact version, which `(` before its id leaves
/// out, and else at the first entry (`-`).
pub open spec fn spec_range_start(version: RepositoryVersion<RedisVersion>) -> Seq<char> {
    match version {
        RepositoryVersion::Exact(exact) => seq!['('] + crate::repository::redis::spec_version_text(
            exact.parts(),
        ),
        _ => seq!['-'],
    }
}

/// Where a read of what follows `version` starts in the Redis stream.
pub fn range_start(version: &RepositoryVersion<RedisVersion>) -> (start: String)
    ensures
        start@ == spec_range_start(*version),
{
    proof {
        reveal_strlit("-");
        reveal_strlit("(");
        assert("-"@ =~= seq!['-']);
        assert("("@ =~= seq!['(']);
    }
    match version {
        RepositoryVersion::Exact(exact) => {
            let start = String::from_str("(");
            let text = exact.to_string();
            start.concat(text.as_str())
        },
        _ => String::from_str("-"),
    }
}

} // verus!
