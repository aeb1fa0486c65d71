//! A small domain of users and their guitars, with which the strategies and
//! the repositories can be tried.

use vstd::prelude::*;

pub mod deciders;
pub mod redis;

verus! {

/// A value that wraps one other value.
pub trait ValueType<T> {
    fn value(&self) -> T;
}

} // verus!
