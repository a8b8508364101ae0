//! Mock implementations of an embedded runtime's task spawner, periodic
//! ticker, and one-shot timer, for unit-testing code that is written against
//! capability traits instead of the real runtime types.
//!
//! The mocks resolve instantly and record how they were used: the spawner and
//! ticker count calls against an expected count held by a [`accounting::CallVerifier`],
//! and every timer offers the duration it was created with to a bounded
//! capture channel that tests can drain.

pub mod accounting;
pub mod executor;
pub mod time;
