use keiko::prober::{poll_outcome, ProbeOutcome};

#[test]
fn a_successful_connect_ends_the_wait() {
    assert_eq!(poll_outcome(true, 0, None), ProbeOutcome::Ready);
    assert_eq!(poll_outcome(true, 99, Some(100)), ProbeOutcome::Ready);
}

#[test]
fn a_failed_connect_retries_without_a_limit() {
    assert_eq!(poll_outcome(false, 0, None), ProbeOutcome::Retry);
    assert_eq!(poll_outcome(false, 1_000_000, None), ProbeOutcome::Retry);
}

#[test]
fn the_bounded_wait_times_out_at_its_limit() {
    assert_eq!(poll_outcome(false, 0, Some(3)), ProbeOutcome::Retry);
    assert_eq!(poll_outcome(false, 1, Some(3)), ProbeOutcome::Retry);
    assert_eq!(poll_outcome(false, 2, Some(3)), ProbeOutcome::TimedOut);
    assert_eq!(poll_outcome(false, 7, Some(3)), ProbeOutcome::TimedOut);
}

#[test]
fn readiness_probe_against_a_late_port_retries_then_succeeds() {
    // The port stays closed for three seconds and opens just after;
    // polling once per second must retry at least three times and
    // report ready within one further interval.
    let poll_interval_ms: u64 = 1000;
    let delay_ms: u64 = 3000;
    let mut attempt: u64 = 0;
    let mut retries: u64 = 0;
    let outcome = loop {
        let elapsed_ms = attempt * poll_interval_ms;
        let connected = elapsed_ms >= delay_ms;
        match poll_outcome(connected, attempt, None) {
            ProbeOutcome::Ready => break ProbeOutcome::Ready,
            ProbeOutcome::Retry => {
                retries += 1;
                attempt += 1;
            }
            ProbeOutcome::TimedOut => break ProbeOutcome::TimedOut,
        }
    };
    assert_eq!(outcome, ProbeOutcome::Ready);
    assert!(retries >= 3);
    // Ready came at the first attempt at or past the delay: within one
    // interval after the port opened.
    assert_eq!(attempt, 3);
    assert!(attempt * poll_interval_ms >= delay_ms);
    assert!((attempt - 1) * poll_interval_ms < delay_ms);
}
