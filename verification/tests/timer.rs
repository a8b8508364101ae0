use embassy_mock::time::{CaptureChannel, Duration, Empty, MockTimer, Timer};

#[test]
fn can_create_timer_with_after() {
    let timer = MockTimer::after(Duration::from_secs(1));

    assert_eq!(
        timer,
        MockTimer {
            duration: Duration::from_secs(1)
        }
    );
}

#[test]
fn can_timer_impls_future() {
    let timer = MockTimer::after(Duration::from_secs(1));
    let mut channel = CaptureChannel::new();

    let ready = timer.poll(&mut channel);

    assert!(ready);
}

#[test]
fn resolution_captures_the_requested_duration() {
    let mut channel = CaptureChannel::new();
    let timer = MockTimer::after(Duration::from_millis(250));

    timer.poll(&mut channel);

    assert_eq!(channel.try_receive(), Ok(Duration::from_millis(250)));
    assert_eq!(channel.try_receive(), Err(Empty));
}

#[test]
fn duration_constructors_count_ticks() {
    assert_eq!(Duration::from_ticks(7).as_ticks(), 7);
    assert_eq!(Duration::from_millis(500).as_ticks(), 500_000);
    assert_eq!(Duration::from_secs(2).as_ticks(), 2_000_000);
}
