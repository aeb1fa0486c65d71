//! Snapshots of states in Redis, as JSON records with a version: what the
//! records and the states must offer.

use crate::repository::redis::RedisVersion;
use vstd::prelude::*;

verus! {

/// Why a repository of snapshots on Redis failed.
#[derive(Debug)]
pub enum RedisRepositoryError {
    ConnectionError(redis_om::RedisError),
    /// The text is no version.
    ParseVersion(String),
    ReadError(redis_om::RedisError),
    SaveError(redis_om::RedisError),
    ParseEvent(redis_om::RedisError),
}

#[derive(Debug)]
pub enum RedisJsonDTOError {
    Deserialize,
}

/// A JSON record that holds a state with the id of its stream and its version.
pub trait VersionedRedisJsonDTO<Data: Clone>: Sized {
    fn id(&self) -> String;

    fn version(&self) -> RedisVersion;

    fn data(&self) -> Data;

    fn new(id: String, version: RedisVersion, data: Data) -> Self;
}

/// A state that can be put into the JSON record `JM` at a version.
pub trait WithVersionedRedisDTO<JM>: Sized + Clone {
    fn to_dto(&self, version: RedisVersion) -> JM;
}

} // verus!
