//! A mock one-shot timer and the capture channel its resolutions feed.
//!
//! A [`MockTimer`] holds the duration it was created with and resolves
//! immediately. Resolving it offers that duration to a [`CaptureChannel`]:
//! a bounded, first-in-first-out queue that a test drains to observe which
//! durations were requested and in what order they resolved. The send is
//! best-effort — a full channel drops the duration silently — so resolution
//! itself never fails and never blocks.

use vstd::prelude::*;

use crate::time::duration::Duration;

verus! {

/// How many captured durations the channel holds at most.
pub const CAPTURE_CAPACITY: usize = 5;

/// The result of receiving from an empty capture channel.
#[derive(Clone, Copy, Debug, PartialEq, Eq, Structural)]
pub struct Empty;

/// What a send leaves in the channel: the duration is appended while the
/// channel is below capacity, and dropped silently once it is full.
pub open spec fn send_model(s: Seq<Duration>, d: Duration) -> Seq<Duration> {
    if s.len() < CAPTURE_CAPACITY {
        s.push(d)
    } else {
        s
    }
}

/// What a receive returns: the oldest entry, or [`Empty`] when there is
/// none.
pub open spec fn recv_result(s: Seq<Duration>) -> Result<Duration, Empty> {
    if s.len() == 0 {
        Err(Empty)
    } else {
        Ok(s[0])
    }
}

/// What a receive leaves in the channel: everything but the oldest entry.
pub open spec fn recv_model(s: Seq<Duration>) -> Seq<Duration> {
    if s.len() == 0 {
        s
    } else {
        s.drop_first()
    }
}

/// A bounded, ordered queue of captured durations, drained by tests.
///
/// It never holds more than [`CAPTURE_CAPACITY`] entries and preserves the
/// order in which sends reached it — the order the timers resolved in, not
/// the order they were constructed in.
pub struct CaptureChannel {
    items: Vec<Duration>,
}

impl View for CaptureChannel {
    type V = Seq<Duration>;

    closed spec fn view(&self) -> Seq<Duration> {
        self.items@
    }
}

impl CaptureChannel {
    /// The channel's standing invariant: it never holds more than
    /// [`CAPTURE_CAPACITY`] entries. [`CaptureChannel::new`] establishes it
    /// and every method preserves it.
    pub open spec fn wf(self) -> bool {
        self@.len() <= CAPTURE_CAPACITY
    }

    /// A fresh, empty channel.
    pub fn new() -> (c: CaptureChannel)
        ensures
            c@ == Seq::<Duration>::empty(),
            c.wf(),
    {
        CaptureChannel { items: Vec::new() }
    }

    /// The non-blocking send: appends the duration while the channel is
    /// below capacity and silently drops it otherwise. No error reaches the
    /// producer — observability is best-effort by design.
    pub fn try_send(&mut self, duration: Duration)
        ensures
            final(self)@ == send_model(old(self)@, duration),
            old(self).wf() ==> final(self).wf(),
    {
        if self.items.len() < CAPTURE_CAPACITY {
            self.items.push(duration);
        }
    }

    /// The non-blocking receive: yields the oldest captured duration, or
    /// [`Empty`] without changing anything when the channel holds none.
    pub fn try_receive(&mut self) -> (r: Result<Duration, Empty>)
        ensures
            r == recv_result(old(self)@),
            final(self)@ == recv_model(old(self)@),
            old(self).wf() ==> final(self).wf(),
    {
        if self.items.len() == 0 {
            Err(Empty)
        } else {
            let d = self.items.remove(0);
            proof {
                assert(self@ =~= recv_model(old(self)@));
            }
            Ok(d)
        }
    }

    /// Drains every pending entry, leaving the channel empty; tests reset
    /// the shared channel with this between runs.
    pub fn clear(&mut self)
        ensures
            final(self)@ == Seq::<Duration>::empty(),
            final(self).wf(),
    {
        self.items.clear();
        proof {
            assert(self@ =~= Seq::<Duration>::empty());
        }
    }

    /// How many captured durations are pending: at most
    /// [`CAPTURE_CAPACITY`] on every channel that keeps the standing
    /// invariant.
    pub fn len(&self) -> (n: usize)
        ensures
            n == self@.len(),
            self.wf() ==> n <= CAPTURE_CAPACITY,
    {
        self.items.len()
    }
}

/// The capability trait production code sleeps through, so that a mock can
/// stand in for the real one-shot timer in tests.
pub trait Timer: Sized {
    /// The duration this timer was created with.
    spec fn requested(&self) -> Duration;

    /// A timer that expires after `duration`. Pure construction: no side
    /// effect until the timer resolves.
    fn after(duration: Duration) -> (t: Self)
        ensures
            t.requested() == duration,
    ;
}

/// A mock one-shot timer: a value object holding the requested duration.
///
/// It resolves immediately — no time passes — and resolving it offers the
/// held duration to a [`CaptureChannel`].
#[derive(Clone, Copy, Debug, PartialEq, Eq, Structural)]
pub struct MockTimer {
    /// The duration this timer was created with.
    pub duration: Duration,
}

impl Timer for MockTimer {
    open spec fn requested(&self) -> Duration {
        self.duration
    }

    /// Stores the duration; nothing else happens until the timer resolves.
    fn after(duration: Duration) -> (t: Self) {
        MockTimer { duration }
    }
}

impl MockTimer {
    /// Resolve the timer: always ready at once, whatever the channel held.
    /// The held duration is offered to the channel — appended while the
    /// channel is below capacity, dropped silently otherwise. Each
    /// resolution attempt offers it again, so resolving an instance twice
    /// enqueues duplicates.
    pub fn poll(&self, channel: &mut CaptureChannel) -> (ready: bool)
        ensures
            ready,
            final(channel)@ == send_model(old(channel)@, self.duration),
            old(channel).wf() ==> final(channel).wf(),
    {
        channel.try_send(self.duration);
        true
    }
}

/// A send to a channel below capacity appends exactly the sent duration —
/// unchanged, at the end, nothing else moved.
pub proof fn lemma_send_below_capacity_appends(s: Seq<Duration>, d: Duration)
    requires
        s.len() < CAPTURE_CAPACITY,
    ensures
        send_model(s, d) == s.push(d),
        send_model(s, d).len() == s.len() + 1,
        send_model(s, d).last() == d,
{
}

/// A send to a full channel leaves it exactly as it was: the duration is
/// dropped silently.
pub proof fn lemma_send_to_full_channel_drops(s: Seq<Duration>, d: Duration)
    requires
        s.len() >= CAPTURE_CAPACITY,
    ensures
        send_model(s, d) == s,
{
}

/// A send never pushes the channel past its capacity.
pub proof fn lemma_send_preserves_capacity(s: Seq<Duration>, d: Duration)
    requires
        s.len() <= CAPTURE_CAPACITY,
    ensures
        send_model(s, d).len() <= CAPTURE_CAPACITY,
{
}

/// A receive from a drained channel — as [`CaptureChannel::clear`] leaves
/// it — reports [`Empty`] and changes nothing.
pub proof fn lemma_drained_channel_reads_empty(s: Seq<Duration>)
    requires
        s.len() == 0,
    ensures
        recv_result(s) == Result::<Duration, Empty>::Err(Empty),
        recv_model(s) == s,
{
}

/// What a run of sends starting from `s` leaves in the channel.
pub open spec fn send_all(s: Seq<Duration>, ds: Seq<Duration>) -> Seq<Duration>
    decreases ds.len(),
{
    if ds.len() == 0 {
        s
    } else {
        send_all(send_model(s, ds[0]), ds.drop_first())
    }
}

/// Sends that stay within the channel's spare room append exactly what was
/// sent, in order.
pub proof fn lemma_sends_within_room_append(s: Seq<Duration>, ds: Seq<Duration>)
    requires
        s.len() + ds.len() <= CAPTURE_CAPACITY,
    ensures
        send_all(s, ds) == s + ds,
    decreases ds.len(),
{
    if ds.len() == 0 {
        assert(s + ds =~= s);
    } else {
        assert(send_model(s, ds[0]) == s.push(ds[0]));
        lemma_sends_within_room_append(s.push(ds[0]), ds.drop_first());
        assert(s.push(ds[0]) + ds.drop_first() =~= s + ds);
    }
}

/// The round trip: every run of at most [`CAPTURE_CAPACITY`] resolutions
/// into an empty channel is captured whole — the same durations, by value,
/// in resolution order, nothing reordered or transformed.
pub proof fn lemma_capture_round_trip(ds: Seq<Duration>)
    requires
        ds.len() <= CAPTURE_CAPACITY,
    ensures
        send_all(Seq::empty(), ds) == ds,
{
    lemma_sends_within_room_append(Seq::empty(), ds);
    assert(Seq::empty() + ds =~= ds);
}

} // verus!
