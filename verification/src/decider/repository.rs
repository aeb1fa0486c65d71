//! Repositories as a decider first met them: one log without versions, and
//! streams whose version is the number of their events.

pub mod in_memory;
