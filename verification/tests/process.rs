use sherlock_desktop::platform::process::{next_wait_step, WaitStep, POLL_INTERVAL_MILLIS};

#[test]
fn an_exited_child_is_collected() {
    for (elapsed, timeout, within_nanos) in [
        (0, 900_000_000, 900_000_000),
        (100_000_000, 900_000_000, 800_000_000),
        (870_000_000, 900_000_000, 50_000_000),
        (999_000_000, 900_000_000, 50_000_000),
    ] {
        assert_eq!(
            next_wait_step(true, elapsed, timeout),
            WaitStep::Collect { within_nanos }
        );
    }
}

#[test]
fn a_running_child_is_given_up_at_the_deadline() {
    assert_eq!(next_wait_step(false, 499, 500), WaitStep::Sleep { millis: 50 });
    assert_eq!(next_wait_step(false, 500, 500), WaitStep::GiveUp);
    assert_eq!(next_wait_step(false, 501, 500), WaitStep::GiveUp);
    assert_eq!(next_wait_step(false, 0, 0), WaitStep::GiveUp);
}

#[test]
fn waiting_ends() {
    let timeout = 500_000_000u128;
    let mut elapsed = 0u128;
    let mut polls = 0;
    while let WaitStep::Sleep { millis } = next_wait_step(false, elapsed, timeout) {
        elapsed += u128::from(millis) * 1_000_000;
        polls += 1;
    }
    assert_eq!(polls, 10);
    assert_eq!(POLL_INTERVAL_MILLIS, 50);
}
