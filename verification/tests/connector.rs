use wait_for_port::connector::{
    classify, run_trace, step, AttemptResult, ConnectErrorKind, Decision, ErrorClass, Outcome,
    PollConfig,
};

fn cfg(timeout_ms: u64, interval_ms: u64) -> PollConfig {
    PollConfig { overall_timeout_ms: timeout_ms, poll_interval_ms: interval_ms }
}

#[test]
fn refused_is_retryable() {
    assert_eq!(classify(ConnectErrorKind::Refused), ErrorClass::Retryable);
}

#[test]
fn timed_out_is_retryable() {
    assert_eq!(classify(ConnectErrorKind::TimedOut), ErrorClass::Retryable);
}

#[test]
fn reset_is_retryable() {
    assert_eq!(classify(ConnectErrorKind::Reset), ErrorClass::Retryable);
}

#[test]
fn other_is_fatal() {
    assert_eq!(classify(ConnectErrorKind::Other), ErrorClass::Fatal);
}

#[test]
fn success_connects_whatever_the_deadline() {
    let d = step(&cfg(0, 0), u64::MAX, AttemptResult::Success);
    assert_eq!(d, Decision::Finish(Outcome::Connected));
}

#[test]
fn fatal_failure_stops_at_once() {
    let d = step(&cfg(30000, 1000), 1, AttemptResult::Failure(ConnectErrorKind::Other));
    assert_eq!(d, Decision::Finish(Outcome::FatalError));
}

#[test]
fn retryable_failure_within_deadline_retries() {
    let d = step(&cfg(30000, 1000), 29999, AttemptResult::Failure(ConnectErrorKind::Refused));
    assert_eq!(d, Decision::RetryAfter(1000));
}

#[test]
fn elapsed_equal_to_timeout_still_retries() {
    // The deadline check is strict: a retry is still made at exactly the
    // timeout, as comparing the two durations with `>` does.
    let d = step(&cfg(30000, 1000), 30000, AttemptResult::Failure(ConnectErrorKind::Reset));
    assert_eq!(d, Decision::RetryAfter(1000));
}

#[test]
fn retryable_failure_past_deadline_times_out() {
    let d = step(&cfg(30000, 1000), 30001, AttemptResult::Failure(ConnectErrorKind::TimedOut));
    assert_eq!(d, Decision::Finish(Outcome::TimedOut));
}

#[test]
fn zero_timeout_times_out_on_first_failure() {
    // overall_timeout = 0 with no listener: the first refusal, observed at
    // any positive elapsed time, already ends the run; no retry is taken.
    let d = step(&cfg(0, 1000), 1, AttemptResult::Failure(ConnectErrorKind::Refused));
    assert_eq!(d, Decision::Finish(Outcome::TimedOut));
}

#[test]
fn empty_trace_is_still_running() {
    assert_eq!(run_trace(&cfg(2000, 500), &Vec::new()), None);
}

#[test]
fn listener_accepting_connects_immediately() {
    // A listener is up: the very first attempt succeeds, near-instantly.
    let attempts = vec![(1, AttemptResult::Success)];
    assert_eq!(run_trace(&cfg(2000, 500), &attempts), Some(Outcome::Connected));
}

#[test]
fn no_listener_times_out_after_four_retries() {
    // No listener, timeout 2000 ms, interval 500 ms: loopback refusals come
    // back near-instantly, so the attempts land at roughly 0.5s spacing and
    // the run times out just past 2000 ms, after four retry sleeps.
    let refused = AttemptResult::Failure(ConnectErrorKind::Refused);
    let attempts =
        vec![(1, refused), (501, refused), (1001, refused), (1501, refused), (2001, refused)];
    let config = cfg(2000, 500);
    let mut retries: usize = 0;
    let mut outcome: Option<Outcome> = None;
    for &(elapsed_ms, attempt) in &attempts {
        match step(&config, elapsed_ms, attempt) {
            Decision::Finish(o) => {
                outcome = Some(o);
                break;
            }
            Decision::RetryAfter(sleep_ms) => {
                assert_eq!(sleep_ms, 500);
                retries += 1;
            }
        }
    }
    assert_eq!(outcome, Some(Outcome::TimedOut));
    assert_eq!(retries, 4);
    assert_eq!(run_trace(&config, &attempts), Some(Outcome::TimedOut));
}

#[test]
fn fatal_failure_ends_run_despite_later_entries() {
    let attempts = vec![
        (1, AttemptResult::Failure(ConnectErrorKind::Other)),
        (501, AttemptResult::Success),
    ];
    assert_eq!(run_trace(&cfg(2000, 500), &attempts), Some(Outcome::FatalError));
}

#[test]
fn success_after_retries_connects() {
    let refused = AttemptResult::Failure(ConnectErrorKind::Refused);
    let attempts = vec![(1, refused), (501, refused), (1001, AttemptResult::Success)];
    assert_eq!(run_trace(&cfg(2000, 500), &attempts), Some(Outcome::Connected));
}

#[test]
fn same_trace_gives_same_outcome() {
    // Identical environments (the same attempt results at the same elapsed
    // times) end the same way, run as often as one likes.
    let refused = AttemptResult::Failure(ConnectErrorKind::Refused);
    let attempts = vec![(1, refused), (501, refused), (1001, refused), (2001, refused)];
    let config = cfg(2000, 500);
    let first = run_trace(&config, &attempts);
    let second = run_trace(&config, &attempts);
    assert_eq!(first, second);
    assert_eq!(first, Some(Outcome::TimedOut));
}
