//! Call-accounting shared by the mock spawner and the mock ticker.
//!
//! A [`CallVerifier`] pairs an expected call count, fixed at construction,
//! with a running count of recorded calls. It supports two verification
//! ceremonies: an explicit check, which returns a structured [`Mismatch`] and
//! marks the verifier finalized, and an implicit destruction-time check,
//! which fires when a verifier that was never explicitly checked is dropped
//! and raises a fatal failure if the counts disagree.

use vstd::prelude::*;

verus! {

/// The structured outcome of a failed explicit check: the expected call
/// count and the count that was actually recorded.
#[derive(Clone, Copy, Debug, PartialEq, Eq, Structural)]
pub struct Mismatch {
    /// The number of calls the verifier was told to expect.
    pub expected: usize,
    /// The number of calls that were actually recorded.
    pub actual: usize,
}

/// Relies on `Option::expect`: called on `None` it panics, carrying the given
/// message, and never returns. This is the fatal, unrecoverable failure that
/// a destruction-time mismatch must raise. Verus demands that every `Drop`
/// implementation be `no_unwind`, so this helper carries that marking even
/// though the panic it raises unwinds: the deliberate, documented failure of
/// the destruction-time check is the one place this crate steps outside that
/// guarantee.
#[verifier::external_body]
fn fail_count_mismatch(action: &str, unit: &str, past: &str, expected: usize, actual: usize)
    opens_invariants none
    no_unwind
{
    let message = format!("expected to {action} {expected} {unit}, actually {past} {actual}");
    let failed: Option<()> = None;
    failed.expect(&message);
}

/// An expected call count, the count of calls recorded so far, and a
/// finalize-once flag that tells the destruction-time check whether an
/// explicit check already ran.
pub struct CallVerifier {
    expected: usize,
    actual: usize,
    finalized: bool,
    action: &'static str,
    unit: &'static str,
    past: &'static str,
}

impl CallVerifier {
    /// The call count this verifier expects.
    pub closed spec fn expected(self) -> usize {
        self.expected
    }

    /// The number of calls recorded so far.
    pub closed spec fn actual(self) -> usize {
        self.actual
    }

    /// Whether an explicit check already ran (or the verifier was created
    /// pre-finalized), so the destruction-time check is suppressed.
    pub closed spec fn finalized(self) -> bool {
        self.finalized
    }

    /// What an explicit check of this verifier returns.
    pub open spec fn check_result(self) -> Result<(), Mismatch> {
        if self.actual() == self.expected() {
            Ok(())
        } else {
            Err(Mismatch { expected: self.expected(), actual: self.actual() })
        }
    }

    /// Whether dropping this verifier raises the fatal destruction-time
    /// failure: it does exactly when no explicit check ran and the counts
    /// disagree.
    pub open spec fn drop_check_fails(self) -> bool {
        !self.finalized() && self.actual() != self.expected()
    }

    /// A fresh verifier: no call recorded yet, not finalized.
    pub fn new_with_expectation(expected: usize) -> (v: CallVerifier)
        ensures
            v.expected() == expected,
            v.actual() == 0,
            !v.finalized(),
    {
        CallVerifier {
            expected,
            actual: 0,
            finalized: false,
            action: "record",
            unit: "call(s)",
            past: "recorded",
        }
    }

    /// A fresh verifier whose fatal message uses the holder's own wording.
    pub(crate) fn with_message(
        expected: usize,
        action: &'static str,
        unit: &'static str,
        past: &'static str,
    ) -> (v: CallVerifier)
        ensures
            v.expected() == expected,
            v.actual() == 0,
            !v.finalized(),
    {
        CallVerifier { expected, actual: 0, finalized: false, action, unit, past }
    }

    /// A verifier that is already finalized at construction, for holders
    /// whose call site cannot supply an expectation: its destruction-time
    /// check never fires.
    pub(crate) fn pre_finalized() -> (v: CallVerifier)
        ensures
            v.expected() == 0,
            v.actual() == 0,
            v.finalized(),
    {
        CallVerifier {
            expected: 0,
            actual: 0,
            finalized: true,
            action: "record",
            unit: "call(s)",
            past: "recorded",
        }
    }

    /// Record one call. The count must not overflow; holders keep that out
    /// of reach by demanding it of their callers.
    pub fn record_call(&mut self)
        requires
            old(self).actual() < usize::MAX,
        ensures
            final(self).actual() == old(self).actual() + 1,
            final(self).expected() == old(self).expected(),
            final(self).finalized() == old(self).finalized(),
    {
        self.actual = self.actual + 1;
    }

    /// The explicit check: compares the recorded count to the expected one
    /// and marks the verifier finalized, so the destruction-time check no
    /// longer fires, whatever the outcome was.
    pub fn check(&mut self) -> (r: Result<(), Mismatch>)
        ensures
            r == old(self).check_result(),
            final(self).finalized(),
            final(self).expected() == old(self).expected(),
            final(self).actual() == old(self).actual(),
    {
        let r: Result<(), Mismatch> = if self.actual != self.expected {
            Err(Mismatch { expected: self.expected, actual: self.actual })
        } else {
            Ok(())
        };
        self.finalized = true;
        r
    }

    /// The destruction-time check: when no explicit check ran and the counts
    /// disagree, raise the fatal failure; otherwise do nothing.
    fn on_destroy(&self)
        opens_invariants none
        no_unwind
    {
        if !self.finalized && self.actual != self.expected {
            fail_count_mismatch(self.action, self.unit, self.past, self.expected, self.actual);
        }
    }
}

impl Drop for CallVerifier {
    /// Runs the destruction-time check. On a mismatch that was never
    /// explicitly checked this panics, so a forgotten expectation fails the
    /// test loudly instead of passing silently.
    fn drop(&mut self)
        opens_invariants none
        no_unwind
    {
        self.on_destroy();
    }
}

/// A verifier whose recorded count matches its expectation reports success
/// on an explicit check, and its destruction-time check passes.
pub proof fn lemma_matching_count_passes(v: CallVerifier)
    requires
        v.actual() == v.expected(),
    ensures
        v.check_result() == Result::<(), Mismatch>::Ok(()),
        !v.drop_check_fails(),
{
}

/// A verifier whose recorded count differs from its expectation reports a
/// mismatch carrying both counts on an explicit check, and, if it was never
/// explicitly checked, its destruction-time check fails.
pub proof fn lemma_differing_count_fails(v: CallVerifier)
    requires
        v.actual() != v.expected(),
    ensures
        v.check_result() == Result::<(), Mismatch>::Err(
            Mismatch { expected: v.expected(), actual: v.actual() },
        ),
        !v.finalized() ==> v.drop_check_fails(),
{
}

/// Once a verifier is finalized, which the explicit check ensures whatever
/// its outcome was, the destruction-time check never fails.
pub proof fn lemma_finalized_suppresses_drop_check(v: CallVerifier)
    requires
        v.finalized(),
    ensures
        !v.drop_check_fails(),
{
}

} // verus!
