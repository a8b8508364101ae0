//! A mock task spawner.
//!
//! Production code is written against the [`Spawner`] capability trait; at
//! test time a [`MockSpawner`] stands in for the real scheduler handle. It
//! never runs a submitted unit of work: it discards it harmlessly, counts
//! the call, and checks the count against an expectation either explicitly
//! through [`MockSpawner::done`] or implicitly when it is dropped.

use vstd::prelude::*;

use crate::accounting::{CallVerifier, Mismatch};

verus! {

/// Declares `embassy_executor::SpawnError`, the error surface of the real
/// scheduler handle, so the capability trait can keep the real call's
/// signature. The mock never constructs one.
#[verifier::external_type_specification]
#[verifier::external_body]
pub struct ExSpawnError(embassy_executor::SpawnError);

/// Relies on `core::mem::forget`: the value is discarded without running its
/// destructor. A real task token panics when dropped, so a mock must
/// neutralize the token it intercepts exactly this way.
#[verifier::external_body]
fn discard_without_drop<W>(work: W) {
    core::mem::forget(work);
}

/// The capability trait production code spawns tasks through, so that a mock
/// can stand in for the real scheduler handle in tests.
pub trait Spawner: Sized {
    /// How many units of work have been handed to this spawner.
    spec fn spawn_count(&self) -> usize;

    /// Hand one unit of work to the spawner. Every call is counted; the
    /// result keeps the real scheduler's error surface.
    fn spawn<W>(&mut self, work: W) -> (r: Result<(), embassy_executor::SpawnError>)
        requires
            old(self).spawn_count() < usize::MAX,
        ensures
            final(self).spawn_count() == old(self).spawn_count() + 1,
    ;
}

/// The error reported by an explicit [`MockSpawner::done`] check.
#[derive(Clone, Copy, Debug, PartialEq, Eq, Structural)]
pub enum MockSpawnerError {
    /// [`Spawner::spawn`] was called the wrong number of times.
    WrongNumberOfTasks {
        /// The expected number of calls to [`Spawner::spawn`].
        expected: usize,
        /// The actual number of times [`Spawner::spawn`] was called.
        actual: usize,
    },
}

/// A mock spawner: counts calls to [`Spawner::spawn`] instead of running
/// anything, and verifies the count against the expectation it was created
/// with.
///
/// If [`MockSpawner::done`] is never called, the check runs when the mock is
/// dropped, and a mismatch then panics.
pub struct MockSpawner {
    verify_calls: CallVerifier,
}

impl MockSpawner {
    /// The number of calls to [`Spawner::spawn`] this mock expects.
    pub closed spec fn expected(self) -> usize {
        self.verify_calls.expected()
    }

    /// The number of calls to [`Spawner::spawn`] recorded so far.
    pub closed spec fn actual(self) -> usize {
        self.verify_calls.actual()
    }

    /// Whether the expectation was already checked explicitly, so the
    /// destruction-time check stays quiet.
    pub closed spec fn checked(self) -> bool {
        self.verify_calls.finalized()
    }

    /// Whether dropping this mock raises the fatal destruction-time failure.
    pub open spec fn drop_check_fails(self) -> bool {
        !self.checked() && self.actual() != self.expected()
    }

    /// What [`MockSpawner::done`] returns for this mock's counts.
    pub open spec fn done_result(self) -> Result<(), MockSpawnerError> {
        if self.actual() == self.expected() {
            Ok(())
        } else {
            Err(
                MockSpawnerError::WrongNumberOfTasks {
                    expected: self.expected(),
                    actual: self.actual(),
                },
            )
        }
    }

    /// A mock spawner expecting `expected` calls to [`Spawner::spawn`].
    pub fn expect(expected: usize) -> (s: MockSpawner)
        ensures
            s.expected() == expected,
            s.actual() == 0,
            !s.checked(),
    {
        MockSpawner { verify_calls: CallVerifier::with_message(expected, "spawn", "task(s)", "spawned") }
    }

    /// The explicit check: consumes the mock, so no destruction-time check
    /// fires afterwards, and reports whether [`Spawner::spawn`] was called
    /// exactly the expected number of times, with both counts on a mismatch.
    pub fn done(self) -> (r: Result<(), MockSpawnerError>)
        ensures
            r == self.done_result(),
    {
        let MockSpawner { verify_calls: mut v } = self;
        match v.check() {
            Ok(()) => Ok(()),
            Err(Mismatch { expected, actual }) => Err(
                MockSpawnerError::WrongNumberOfTasks { expected, actual },
            ),
        }
    }
}

impl Spawner for MockSpawner {
    open spec fn spawn_count(&self) -> usize {
        self.actual()
    }

    /// Discards the unit of work without running it or its destructor, and
    /// records the call. The mock itself never fails.
    fn spawn<W>(&mut self, work: W) -> (r: Result<(), embassy_executor::SpawnError>)
        ensures
            r is Ok,
            final(self).expected() == old(self).expected(),
            final(self).checked() == old(self).checked(),
    {
        discard_without_drop(work);
        self.verify_calls.record_call();
        Ok(())
    }
}

/// A mock spawner whose recorded call count matches its expectation reports
/// success from [`MockSpawner::done`], and its destruction-time check
/// passes.
pub proof fn lemma_spawner_matching_count_passes(s: MockSpawner)
    requires
        s.actual() == s.expected(),
    ensures
        s.done_result() == Result::<(), MockSpawnerError>::Ok(()),
        !s.drop_check_fails(),
{
}

/// A mock spawner whose recorded call count differs from its expectation
/// reports a mismatch carrying both counts, and, if never explicitly
/// checked, its destruction-time check fails.
pub proof fn lemma_spawner_differing_count_fails(s: MockSpawner)
    requires
        s.actual() != s.expected(),
    ensures
        s.done_result() == Result::<(), MockSpawnerError>::Err(
            MockSpawnerError::WrongNumberOfTasks { expected: s.expected(), actual: s.actual() },
        ),
        !s.checked() ==> s.drop_check_fails(),
{
}

} // verus!
