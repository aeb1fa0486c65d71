//! Why the in-memory repository of streams refuses an append.

use crate::repository::VersionDiff;
use vstd::prelude::*;

verus! {

#[derive(Debug)]
pub enum Error {
    /// The stream did not stand at the version that the writer expected.
    VersionConflict(VersionDiff<usize>),
}

} // verus!
