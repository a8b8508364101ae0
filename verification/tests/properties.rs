use embassy_mock::accounting::{CallVerifier, Mismatch};
use embassy_mock::executor::{MockSpawner, Spawner};
use embassy_mock::time::{CaptureChannel, Duration, Empty, MockTicker, MockTimer, Ticker, Timer};

#[test]
fn verifier_with_matching_count_passes_explicit_check() {
    let mut v = CallVerifier::new_with_expectation(2);
    v.record_call();
    v.record_call();

    assert_eq!(v.check(), Ok(()));
    // Dropping `v` here must stay silent: the check ran and the counts agree.
}

#[test]
fn verifier_with_zero_expectation_and_no_calls_passes() {
    let mut v = CallVerifier::new_with_expectation(0);

    assert_eq!(v.check(), Ok(()));
}

#[test]
fn verifier_with_zero_expectation_just_drop() {
    let v = CallVerifier::new_with_expectation(0);
    // Never checked: the destruction-time check runs and must pass.
    drop(v);
}

#[test]
fn verifier_reports_mismatch_with_both_counts() {
    let mut v = CallVerifier::new_with_expectation(3);
    v.record_call();

    let res = v.check();

    assert_eq!(
        res,
        Err(Mismatch {
            expected: 3,
            actual: 1,
        })
    );
    // Dropping `v` here must stay silent even though the counts disagree:
    // the explicit check suppresses the destruction-time check.
}

#[test]
fn explicit_check_suppresses_drop_check_after_mismatch() {
    let mut v = CallVerifier::new_with_expectation(5);
    v.record_call();

    assert!(v.check().is_err());
    drop(v); // Must not panic.
}

#[test]
fn spawner_count_equals_number_of_spawn_calls() {
    let mut spawner = MockSpawner::expect(4);
    for _ in 0..4 {
        spawner.spawn(()).unwrap();
    }

    assert_eq!(spawner.done(), Ok(()));
}

#[test]
fn spawned_work_is_never_executed() {
    let mut spawner = MockSpawner::expect(1);
    let work = || panic!("the unit of work must never run");

    spawner.spawn(work).unwrap();

    assert_eq!(spawner.done(), Ok(()));
}

#[test]
fn expectation_less_ticker_never_fails_on_drop() {
    let mut ticker = MockTicker::every(Duration::from_millis(10));
    ticker.next();
    ticker.next();
    ticker.next();
    ticker.next();
    // Never checked, and the tick count differs from the dummy budget:
    // dropping it must still stay silent.
}

#[test]
fn resolution_order_sets_capture_order_not_construction_order() {
    let mut channel = CaptureChannel::new();
    let timer_a = MockTimer::after(Duration::from_millis(500));
    let timer_b = MockTimer::after(Duration::from_secs(1));

    // Constructed A then B; resolved B then A.
    timer_b.poll(&mut channel);
    timer_a.poll(&mut channel);

    assert_eq!(channel.try_receive(), Ok(Duration::from_secs(1)));
    assert_eq!(channel.try_receive(), Ok(Duration::from_millis(500)));
    assert_eq!(channel.try_receive(), Err(Empty));
}

#[test]
fn capture_channel_never_exceeds_capacity() {
    let mut channel = CaptureChannel::new();

    for ticks in 0..7u64 {
        let timer = MockTimer::after(Duration::from_ticks(ticks));
        // Every resolution succeeds, even once the channel is full: the
        // overflowing sends are dropped with no error observable here.
        assert!(timer.poll(&mut channel));
        assert!(channel.len() <= 5);
    }
    assert_eq!(channel.len(), 5);

    // Only the first five durations were captured; the sixth and seventh
    // are silently absent.
    for ticks in 0..5u64 {
        assert_eq!(channel.try_receive(), Ok(Duration::from_ticks(ticks)));
    }
    assert_eq!(channel.try_receive(), Err(Empty));
}

#[test]
fn clear_then_receive_yields_empty() {
    let mut channel = CaptureChannel::new();
    MockTimer::after(Duration::from_millis(1)).poll(&mut channel);
    MockTimer::after(Duration::from_millis(2)).poll(&mut channel);

    channel.clear();

    assert_eq!(channel.try_receive(), Err(Empty));
    assert_eq!(channel.len(), 0);
}

#[test]
fn drained_durations_round_trip_by_value_in_order() {
    let mut channel = CaptureChannel::new();
    let sent = [
        Duration::from_ticks(1),
        Duration::from_millis(2),
        Duration::from_secs(3),
        Duration::from_ticks(0),
        Duration::from_millis(500),
    ];

    for duration in sent {
        MockTimer::after(duration).poll(&mut channel);
    }

    for duration in sent {
        assert_eq!(channel.try_receive(), Ok(duration));
    }
    assert_eq!(channel.try_receive(), Err(Empty));
}
