//! Watches a set of filesystem paths and delivers each change event to a
//! consumer as a dynamic, self-describing tree of scalars, sequences and
//! maps, so that a host with no knowledge of the watcher's internal event
//! type can consume notifications uniformly.

pub mod channel;
pub mod convert;
pub mod event;
pub mod flatten;
pub mod json;
pub mod value;
pub mod watcher;
