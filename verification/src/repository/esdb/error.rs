//! Why a repository on EventStoreDB failed.

use vstd::prelude::*;

verus! {

/// An error of a repository on EventStoreDB, around the error `ClientErr` of
/// the client of the database or the error `JsonErr` of the serializer.
#[derive(Debug)]
pub enum Error<ClientErr, JsonErr> {
    ESDBGeneral(ClientErr),
    /// The stream could not be read.
    ReadStream(ClientErr),
    DeserializeEvent(JsonErr),
    SerializeEventDataPayload(JsonErr),
    /// The stream of this id could not be written.
    WriteStream(String, ClientErr),
}

} // verus!
