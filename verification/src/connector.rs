//! The retry/deadline core: after each connection attempt the caller reports
//! what happened and how much wall-clock time has elapsed, and [`step`]
//! decides whether the run is over (connected, timed out, or fatally failed)
//! or whether to sleep and try again.

use vstd::prelude::*;

verus! {

/// Terminal result of a whole run; drives the process exit code.
#[derive(Clone, Copy, Debug, PartialEq, Eq, Structural)]
pub enum Outcome {
    Connected,
    TimedOut,
    FatalError,
}

/// Whether a failed connection attempt is worth retrying.
#[derive(Clone, Copy, Debug, PartialEq, Eq, Structural)]
pub enum ErrorClass {
    Retryable,
    Fatal,
}

/// The error classes a connection attempt can fail with, as far as the
/// retry policy distinguishes them. The caller maps the platform error
/// kind onto these; anything that is not a refusal, a per-attempt timeout
/// or a reset counts as `Other`.
#[derive(Clone, Copy, Debug, PartialEq, Eq, Structural)]
pub enum ConnectErrorKind {
    Refused,
    TimedOut,
    Reset,
    Other,
}

/// What one connection attempt came back with.
#[derive(Clone, Copy, Debug, PartialEq, Eq, Structural)]
pub enum AttemptResult {
    Success,
    Failure(ConnectErrorKind),
}

/// The two durations that pace a run, in milliseconds.
#[derive(Clone, Copy, Debug, PartialEq, Eq, Structural)]
pub struct PollConfig {
    pub overall_timeout_ms: u64,
    pub poll_interval_ms: u64,
}

/// What the caller must do next: stop with an outcome, or sleep the given
/// number of milliseconds and attempt again.
#[derive(Clone, Copy, Debug, PartialEq, Eq, Structural)]
pub enum Decision {
    Finish(Outcome),
    RetryAfter(u64),
}

/// Refused, timed-out and reset attempts mean "service not ready yet" and
/// are retried; every other failure is fatal.
pub open spec fn spec_classify(kind: ConnectErrorKind) -> ErrorClass {
    match kind {
        ConnectErrorKind::Refused => ErrorClass::Retryable,
        ConnectErrorKind::TimedOut => ErrorClass::Retryable,
        ConnectErrorKind::Reset => ErrorClass::Retryable,
        ConnectErrorKind::Other => ErrorClass::Fatal,
    }
}

/// Classify a connection failure as retryable or fatal.
pub fn classify(kind: ConnectErrorKind) -> (c: ErrorClass)
    ensures
        c == spec_classify(kind),
{
    match kind {
        ConnectErrorKind::Refused => ErrorClass::Retryable,
        ConnectErrorKind::TimedOut => ErrorClass::Retryable,
        ConnectErrorKind::Reset => ErrorClass::Retryable,
        ConnectErrorKind::Other => ErrorClass::Fatal,
    }
}

/// The decision taken after one attempt, given the elapsed wall-clock time
/// in milliseconds at the moment the attempt's result is examined.
pub open spec fn spec_step(
    config: PollConfig,
    elapsed_ms: u64,
    attempt: AttemptResult,
) -> Decision {
    match attempt {
        AttemptResult::Success => Decision::Finish(Outcome::Connected),
        AttemptResult::Failure(kind) => {
            if spec_classify(kind) == ErrorClass::Fatal {
                Decision::Finish(Outcome::FatalError)
            } else if elapsed_ms > config.overall_timeout_ms {
                Decision::Finish(Outcome::TimedOut)
            } else {
                Decision::RetryAfter(config.poll_interval_ms)
            }
        },
    }
}

/// Decide how a run continues after one connection attempt.
///
/// A successful attempt ends the run as `Connected` whatever the deadline.
/// A fatal failure ends it at once as `FatalError`. A retryable failure ends
/// it as `TimedOut` exactly when the elapsed time has passed the overall
/// timeout; otherwise the caller is told to sleep one poll interval and try
/// again. In particular no sleep is ever requested once the deadline has
/// passed.
pub fn step(config: &PollConfig, elapsed_ms: u64, attempt: AttemptResult) -> (d: Decision)
    ensures
        d == spec_step(*config, elapsed_ms, attempt),
        attempt is Success ==> d == Decision::Finish(Outcome::Connected),
        attempt matches AttemptResult::Failure(kind) && spec_classify(kind) == ErrorClass::Fatal
            ==> d == Decision::Finish(Outcome::FatalError),
        attempt matches AttemptResult::Failure(kind) && spec_classify(kind)
            == ErrorClass::Retryable && elapsed_ms > config.overall_timeout_ms ==> d
            == Decision::Finish(Outcome::TimedOut),
        attempt matches AttemptResult::Failure(kind) && spec_classify(kind)
            == ErrorClass::Retryable && elapsed_ms <= config.overall_timeout_ms ==> d
            == Decision::RetryAfter(config.poll_interval_ms),
        d is RetryAfter ==> elapsed_ms <= config.overall_timeout_ms,
{
    match attempt {
        AttemptResult::Success => Decision::Finish(Outcome::Connected),
        AttemptResult::Failure(kind) => {
            match classify(kind) {
                ErrorClass::Fatal => Decision::Finish(Outcome::FatalError),
                ErrorClass::Retryable => {
                    if elapsed_ms > config.overall_timeout_ms {
                        Decision::Finish(Outcome::TimedOut)
                    } else {
                        Decision::RetryAfter(config.poll_interval_ms)
                    }
                },
            }
        },
    }
}

/// A failure that the retry policy keeps trying through.
pub open spec fn is_retryable_failure(a: AttemptResult) -> bool {
    a matches AttemptResult::Failure(kind) && spec_classify(kind) == ErrorClass::Retryable
}

/// The outcome of a whole run, replayed over the results of the successive
/// connection attempts. Each entry pairs the elapsed wall-clock milliseconds
/// observed after an attempt with that attempt's result; entries after the
/// first terminal decision are never reached. `None` means the trace ended
/// while the run would still have been retrying.
pub open spec fn run_outcome(config: PollConfig, trace: Seq<(u64, AttemptResult)>) -> Option<
    Outcome,
>
    decreases trace.len(),
{
    if trace.len() == 0 {
        None
    } else {
        match spec_step(config, trace[0].0, trace[0].1) {
            Decision::Finish(outcome) => Some(outcome),
            Decision::RetryAfter(_) => run_outcome(config, trace.drop_first()),
        }
    }
}

/// Replay a run over recorded attempt results, taking exactly the decisions
/// the live loop takes.
pub fn run_trace(config: &PollConfig, attempts: &Vec<(u64, AttemptResult)>) -> (r: Option<
    Outcome,
>)
    ensures
        r == run_outcome(*config, attempts@),
{
    let n = attempts.len();
    let mut i: usize = 0;
    proof {
        assert(attempts@.skip(0) =~= attempts@);
    }
    while i < n
        invariant
            i <= n,
            n == attempts@.len(),
            run_outcome(*config, attempts@) == run_outcome(*config, attempts@.skip(i as int)),
        decreases n - i,
    {
        let (elapsed_ms, attempt) = attempts[i];
        proof {
            assert(attempts@.skip(i as int)[0] == attempts@[i as int]);
        }
        match step(config, elapsed_ms, attempt) {
            Decision::Finish(outcome) => {
                return Some(outcome);
            },
            Decision::RetryAfter(_) => {
                proof {
                    assert(attempts@.skip(i as int).drop_first() =~= attempts@.skip(i as int + 1));
                }
            },
        }
        i += 1;
    }
    proof {
        assert(attempts@.skip(n as int) =~= Seq::<(u64, AttemptResult)>::empty());
    }
    None
}

/// A run whose first attempt succeeds ends as `Connected`, whatever the
/// overall timeout and poll interval are.
pub proof fn lemma_first_success_connects(config: PollConfig, trace: Seq<(u64, AttemptResult)>)
    requires
        trace.len() > 0,
        trace[0].1 is Success,
    ensures
        run_outcome(config, trace) == Some(Outcome::Connected),
{
}

/// A run that sees only retryable failures, at least one of them past the
/// overall timeout, ends as `TimedOut`.
pub proof fn lemma_retryable_failures_time_out(config: PollConfig, trace: Seq<(u64, AttemptResult)>)
    requires
        forall|i: int| 0 <= i < trace.len() ==> is_retryable_failure(#[trigger] trace[i].1),
        exists|i: int| 0 <= i < trace.len() && #[trigger] trace[i].0 > config.overall_timeout_ms,
    ensures
        run_outcome(config, trace) == Some(Outcome::TimedOut),
    decreases trace.len(),
{
    assert(is_retryable_failure(trace[0].1));
    if trace[0].0 > config.overall_timeout_ms {
    } else {
        let w = choose|i: int|
            0 <= i < trace.len() && #[trigger] trace[i].0 > config.overall_timeout_ms;
        let rest = trace.drop_first();
        assert forall|j: int| 0 <= j < rest.len() implies is_retryable_failure(
            #[trigger] rest[j].1,
        ) by {
            assert(rest[j] == trace[j + 1]);
        }
        assert(rest[w - 1] == trace[w]);
        lemma_retryable_failures_time_out(config, rest);
    }
}

/// A run reports `TimedOut` only after a retryable failure was observed at
/// an elapsed time past the overall timeout: the wall-clock time spent is at
/// least the timeout.
pub proof fn lemma_timed_out_past_deadline(config: PollConfig, trace: Seq<(u64, AttemptResult)>)
    requires
        run_outcome(config, trace) == Some(Outcome::TimedOut),
    ensures
        exists|i: int|
            0 <= i < trace.len() && #[trigger] trace[i].0 > config.overall_timeout_ms
                && is_retryable_failure(trace[i].1),
    decreases trace.len(),
{
    match spec_step(config, trace[0].0, trace[0].1) {
        Decision::Finish(outcome) => {
            assert(trace[0].0 > config.overall_timeout_ms && is_retryable_failure(trace[0].1));
        },
        Decision::RetryAfter(_) => {
            let rest = trace.drop_first();
            lemma_timed_out_past_deadline(config, rest);
            let w = choose|i: int|
                0 <= i < rest.len() && #[trigger] rest[i].0 > config.overall_timeout_ms
                    && is_retryable_failure(rest[i].1);
            assert(trace[w + 1] == rest[w]);
            assert(trace[w + 1].0 > config.overall_timeout_ms && is_retryable_failure(
                trace[w + 1].1,
            ));
        },
    }
}

/// Two runs over identical attempt traces end the same way: the outcome is a
/// function of the configuration and of what the environment did, not of
/// when the run happened.
pub proof fn lemma_run_deterministic(
    config: PollConfig,
    trace1: Seq<(u64, AttemptResult)>,
    trace2: Seq<(u64, AttemptResult)>,
)
    requires
        trace1 == trace2,
    ensures
        run_outcome(config, trace1) == run_outcome(config, trace2),
{
}

/// With a zero overall timeout, the first retryable failure already ends the
/// run as `TimedOut`: any positive elapsed time is past the deadline, so no
/// retry is ever attempted.
pub proof fn lemma_zero_timeout_first_failure(config: PollConfig, trace: Seq<(u64, AttemptResult)>)
    requires
        config.overall_timeout_ms == 0,
        trace.len() > 0,
        is_retryable_failure(trace[0].1),
        trace[0].0 >= 1,
    ensures
        spec_step(config, trace[0].0, trace[0].1) == Decision::Finish(Outcome::TimedOut),
        run_outcome(config, trace) == Some(Outcome::TimedOut),
{
}

/// The loop never sleeps past the deadline: a retry is only ever decided
/// while the elapsed time is still within the overall timeout.
pub proof fn lemma_no_retry_past_deadline(
    config: PollConfig,
    elapsed_ms: u64,
    attempt: AttemptResult,
)
    ensures
        spec_step(config, elapsed_ms, attempt) is RetryAfter ==> elapsed_ms
            <= config.overall_timeout_ms,
{
}

} // verus!
