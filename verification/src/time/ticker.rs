//! A mock periodic ticker.
//!
//! Production code waits on the [`Ticker`] capability trait; at test time a
//! [`MockTicker`] stands in for the real periodic timer. Every wait resolves
//! at once — a tick is logical, no time elapses — and is counted against an
//! expectation that is checked explicitly through [`MockTicker::done`] or
//! implicitly when the mock is dropped.

use vstd::prelude::*;

use crate::accounting::{CallVerifier, Mismatch};
use crate::time::duration::Duration;

verus! {

/// The capability trait production code paces itself with, so that a mock
/// can stand in for the real periodic ticker in tests.
pub trait Ticker: Sized {
    /// How many waits have completed on this ticker.
    spec fn tick_count(&self) -> usize;

    /// A ticker that ticks once every `duration`.
    fn every(duration: Duration) -> (t: Self);

    /// Wait for the next tick. Every completed wait is counted.
    fn next(&mut self)
        requires
            old(self).tick_count() < usize::MAX,
        ensures
            final(self).tick_count() == old(self).tick_count() + 1,
    ;
}

/// The error reported by an explicit [`MockTicker::done`] check.
#[derive(Clone, Copy, Debug, PartialEq, Eq, Structural)]
pub enum MockTickerError {
    /// [`Ticker::next`] was called the wrong number of times.
    WrongNumberOfTicks {
        /// The expected number of calls to [`Ticker::next`].
        expected: usize,
        /// The actual number of times [`Ticker::next`] was called.
        actual: usize,
    },
}

/// A mock ticker: every [`Ticker::next`] resolves immediately and is
/// counted, and the count is verified against the expectation the mock was
/// created with.
///
/// If [`MockTicker::done`] is never called, the check runs when the mock is
/// dropped, and a mismatch then panics. A ticker built through
/// [`Ticker::every`] — the construction path of production-shaped code,
/// which cannot supply an expectation — is exempt from that check.
pub struct MockTicker {
    verify_calls: CallVerifier,
}

impl MockTicker {
    /// The number of calls to [`Ticker::next`] this mock expects.
    pub closed spec fn expected(self) -> usize {
        self.verify_calls.expected()
    }

    /// The number of calls to [`Ticker::next`] recorded so far.
    pub closed spec fn actual(self) -> usize {
        self.verify_calls.actual()
    }

    /// Whether the expectation no longer awaits a check: an explicit check
    /// already ran, or the ticker was built without an expectation.
    pub closed spec fn checked(self) -> bool {
        self.verify_calls.finalized()
    }

    /// Whether dropping this mock raises the fatal destruction-time failure.
    pub open spec fn drop_check_fails(self) -> bool {
        !self.checked() && self.actual() != self.expected()
    }

    /// What [`MockTicker::done`] returns for this mock's counts.
    pub open spec fn done_result(self) -> Result<(), MockTickerError> {
        if self.actual() == self.expected() {
            Ok(())
        } else {
            Err(
                MockTickerError::WrongNumberOfTicks {
                    expected: self.expected(),
                    actual: self.actual(),
                },
            )
        }
    }

    /// A mock ticker expecting `expected` calls to [`Ticker::next`].
    pub fn expect(expected: usize) -> (t: MockTicker)
        ensures
            t.expected() == expected,
            t.actual() == 0,
            !t.checked(),
    {
        MockTicker {
            verify_calls: CallVerifier::with_message(expected, "call next", "time(s)", "called"),
        }
    }

    /// The explicit check: consumes the mock, so no destruction-time check
    /// fires afterwards, and reports whether [`Ticker::next`] was called
    /// exactly the expected number of times, with both counts on a mismatch.
    pub fn done(self) -> (r: Result<(), MockTickerError>)
        ensures
            r == self.done_result(),
    {
        let MockTicker { verify_calls: mut v } = self;
        match v.check() {
            Ok(()) => Ok(()),
            Err(Mismatch { expected, actual }) => Err(
                MockTickerError::WrongNumberOfTicks { expected, actual },
            ),
        }
    }
}

impl Ticker for MockTicker {
    open spec fn tick_count(&self) -> usize {
        self.actual()
    }

    /// A mock ticker for production-shaped code: the duration is ignored —
    /// the mock never paces itself — and the expectation is born checked, so
    /// dropping the ticker never fails however often it ticked.
    fn every(_duration: Duration) -> (t: Self)
        ensures
            t.checked(),
            t.expected() == 0,
            t.actual() == 0,
    {
        MockTicker { verify_calls: CallVerifier::pre_finalized() }
    }

    /// Resolves immediately — the wait is purely logical — after recording
    /// the call.
    fn next(&mut self)
        ensures
            final(self).expected() == old(self).expected(),
            final(self).checked() == old(self).checked(),
    {
        self.verify_calls.record_call();
    }
}

/// A mock ticker whose recorded tick count matches its expectation reports
/// success from [`MockTicker::done`], and its destruction-time check passes.
pub proof fn lemma_ticker_matching_count_passes(t: MockTicker)
    requires
        t.actual() == t.expected(),
    ensures
        t.done_result() == Result::<(), MockTickerError>::Ok(()),
        !t.drop_check_fails(),
{
}

/// A mock ticker whose recorded tick count differs from its expectation
/// reports a mismatch carrying both counts, and, if never explicitly
/// checked, its destruction-time check fails.
pub proof fn lemma_ticker_differing_count_fails(t: MockTicker)
    requires
        t.actual() != t.expected(),
    ensures
        t.done_result() == Result::<(), MockTickerError>::Err(
            MockTickerError::WrongNumberOfTicks { expected: t.expected(), actual: t.actual() },
        ),
        !t.checked() ==> t.drop_check_fails(),
{
}

/// A ticker whose expectation is already checked — as [`Ticker::every`]
/// leaves it, and as [`Ticker::next`] keeps it — never fails its
/// destruction-time check, whatever its counts are.
pub proof fn lemma_checked_ticker_never_fails(t: MockTicker)
    requires
        t.checked(),
    ensures
        !t.drop_check_fails(),
{
}

} // verus!
