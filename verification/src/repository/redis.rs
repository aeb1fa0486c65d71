//! What a repository on Redis streams needs that is no call to Redis: the
//! version of a stream entry, as text and as a pair of numbers.

use crate::decimal::{
    digit_value, lemma_decimal_is_digits, lemma_parse_decimal, parse_usize,
    spec_decimal, spec_parse_usize, usize_to_decimal,
};
use vstd::prelude::*;

pub mod order;
pub mod versioned_event;
pub mod versioned_stream_snapshot;

verus! {

/// The error of the Redis client. Nothing is known of what it holds.
#[verifier::external_type_specification]
#[verifier::external_body]
pub struct ExRedisError(redis_om::RedisError);

/// Why a repository on Redis failed.
#[derive(Debug)]
pub enum RedisRepositoryError<DTOErr> {
    ConnectionError(redis_om::RedisError),
    Version(RedisVersionError),
    ReadError(redis_om::RedisError),
    SaveError(redis_om::RedisError),
    ParseDTO(redis_om::RedisError),
    FromDTO(DTOErr),
}

#[derive(Debug)]
pub enum RedisVersionError {
    /// The text is no version. It is handed back.
    ParseVersion(String),
}

/// The id of an entry of a Redis stream: the time at which it was written,
/// and its number among the entries written at that time. The earlier time
/// comes first, and at one time the lower number.
#[derive(Debug, Clone, Copy, PartialEq, Eq, Ord, Structural)]
pub struct RedisVersion {
    timestamp: usize,
    version: usize,
}

/// The index of the first `-` of `text` at or after `from`, or the length of
/// `text` if there is none.
pub open spec fn spec_find_dash(text: Seq<char>, from: int) -> int
    decreases text.len() - from,
{
    if from < 0 || from >= text.len() {
        text.len() as int
    } else if text[from] == '-' {
        from
    } else {
        spec_find_dash(text, from + 1)
    }
}

/// The time and the number that `text` names: two numbers with a `-` between
/// them. What follows a second `-` is not read.
pub open spec fn spec_parse_version(text: Seq<char>) -> Option<(usize, usize)> {
    let first = spec_find_dash(text, 0);
    if first >= text.len() {
        None
    } else {
        let second = spec_find_dash(text, first + 1);
        match (
            spec_parse_usize(text.subrange(0, first)),
            spec_parse_usize(text.subrange(first + 1, second)),
        ) {
            (Some(timestamp), Some(version)) => Some((timestamp, version)),
            _ => None,
        }
    }
}

/// A version as text: the time, a `-`, the number.
pub open spec fn spec_version_text(parts: (usize, usize)) -> Seq<char> {
    spec_decimal(parts.0 as nat) + seq!['-'] + spec_decimal(parts.1 as nat)
}

/// Whether the version `a` comes before the version `b`.
pub open spec fn version_lt(a: (usize, usize), b: (usize, usize)) -> bool {
    a.0 < b.0 || (a.0 == b.0 && a.1 < b.1)
}

/// Of two versions one comes before the other, or they are the same; and
/// what comes before something that comes before a third comes before the
/// third.
pub proof fn lemma_version_order_total(a: (usize, usize), b: (usize, usize), c: (usize, usize))
    ensures
        version_lt(a, b) || version_lt(b, a) || a == b,
        !(version_lt(a, b) && version_lt(b, a)),
        !version_lt(a, a),
        version_lt(a, b) && version_lt(b, c) ==> version_lt(a, c),
{
}

/// Where no `-` stands from `from` up to `k`, and one stands at `k` or `k`
/// is the end of the text, the first `-` at or after `from` is at `k`.
pub proof fn lemma_find_dash(text: Seq<char>, from: int, k: int)
    requires
        0 <= from <= k <= text.len(),
        forall|i: int| from <= i < k ==> text[i] != '-',
        k == text.len() || text[k] == '-',
    ensures
        spec_find_dash(text, from) == k,
    decreases k - from,
{
    if from < k {
        lemma_find_dash(text, from + 1, k);
    }
}

/// A version that is written as text and read again is the same version.
pub proof fn lemma_version_text_roundtrip(parts: (usize, usize))
    ensures
        spec_parse_version(spec_version_text(parts)) == Some(parts),
{
    let time = spec_decimal(parts.0 as nat);
    let number = spec_decimal(parts.1 as nat);
    let text = spec_version_text(parts);
    lemma_decimal_is_digits(parts.0 as nat);
    lemma_decimal_is_digits(parts.1 as nat);
    lemma_parse_decimal(parts.0);
    lemma_parse_decimal(parts.1);
    let first = time.len() as int;
    assert forall|i: int| 0 <= i < first implies text[i] != '-' by {
        assert(text[i] == time[i]);
        assert(digit_value(time[i]) is Some);
    }
    assert(text[first] == '-');
    lemma_find_dash(text, 0, first);
    assert forall|i: int| first + 1 <= i < text.len() implies text[i] != '-' by {
        assert(text[i] == number[i - first - 1]);
        assert(digit_value(number[i - first - 1]) is Some);
    }
    lemma_find_dash(text, first + 1, text.len() as int);
    assert(text.subrange(0, first) =~= time);
    assert(text.subrange(first + 1, text.len() as int) =~= number);
}

fn find_dash(text: &str, from: usize, len: usize) -> (index: usize)
    requires
        len == text@.len(),
        from <= len,
    ensures
        index == spec_find_dash(text@, from as int),
        from <= index <= len,
{
    let mut i: usize = from;
    while i < len
        invariant
            from <= i <= len,
            len == text@.len(),
            spec_find_dash(text@, i as int) == spec_find_dash(text@, from as int),
        decreases len - i,
    {
        if text.get_char(i) == '-' {
            return i;
        }
        i = i + 1;
    }
    i
}

impl RedisVersion {
    /// The time and the number of the version.
    pub closed spec fn parts(self) -> (usize, usize) {
        (self.timestamp, self.version)
    }

    /// A version is its time and its number, and nothing else.
    pub proof fn lemma_parts_are_all(self, other: RedisVersion)
        requires
            self.parts() == other.parts(),
        ensures
            self == other,
    {
    }

    /// Reads a version from the text that Redis gives to a stream entry.
    pub fn parse(value: &str) -> (res: Result<RedisVersion, RedisVersionError>)
        ensures
            match res {
                Ok(version) => spec_parse_version(value@) == Some(version.parts()),
                Err(RedisVersionError::ParseVersion(text)) => {
                    &&& spec_parse_version(value@) is None
                    &&& text@ == value@
                },
            },
    {
        let len = value.unicode_len();
        let first = find_dash(value, 0, len);
        if first >= len {
            return Err(RedisVersionError::ParseVersion(value.to_owned()));
        }
        let second = find_dash(value, first + 1, len);
        let timestamp = match parse_usize(value.substring_char(0, first)) {
            Some(timestamp) => timestamp,
            None => {
                return Err(RedisVersionError::ParseVersion(value.to_owned()));
            },
        };
        let version = match parse_usize(value.substring_char(first + 1, second)) {
            Some(version) => version,
            None => {
                return Err(RedisVersionError::ParseVersion(value.to_owned()));
            },
        };
        Ok(RedisVersion { timestamp, version })
    }

    /// The text that Redis gives to a stream entry of this version.
    pub fn to_string(&self) -> (text: String)
        ensures
            text@ == spec_version_text(self.parts()),
    {
        let mut text = usize_to_decimal(self.timestamp);
        text.append("-");
        let number = usize_to_decimal(self.version);
        text.append(number.as_str());
        proof {
            reveal_strlit("-");
            assert("-"@ =~= seq!['-']);
        }
        text
    }

    /// Whether this version comes before `other`.
    pub fn precedes(&self, other: &RedisVersion) -> (before: bool)
        ensures
            before == version_lt(self.parts(), other.parts()),
    {
        self.timestamp < other.timestamp || (self.timestamp == other.timestamp && self.version
            < other.version)
    }
}

/// What `try_from` answers is stated at `try_from` itself: the text that an
/// error hands back is known by its characters only.
impl vstd::std_specs::convert::TryFromSpecImpl<&str> for RedisVersion {
    open spec fn obeys_try_from_spec() -> bool {
        false
    }

    open spec fn try_from_spec(value: &str) -> Result<Self, RedisVersionError> {
        arbitrary()
    }
}

impl TryFrom<&str> for RedisVersion {
    type Error = RedisVersionError;

    fn try_from(value: &str) -> (res: Result<Self, Self::Error>)
        ensures
            match res {
                Ok(version) => spec_parse_version(value@) == Some(version.parts()),
                Err(RedisVersionError::ParseVersion(text)) => {
                    &&& spec_parse_version(value@) is None
                    &&& text@ == value@
                },
            },
    {
        RedisVersion::parse(value)
    }
}

} // verus!
