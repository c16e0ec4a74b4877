use std::cell::{Cell, RefCell};
use std::collections::VecDeque;
use std::ops::ControlFlow;

use restate_toolkit::poll::{Deadline, PollAction, PollError, PollFailure, PollOutcome, Poller, PollerBuilder};
use restate_toolkit::Span;

const MAX_SPAN_MILLIS: u64 = u64::MAX / 2;

/// Performs the actions of a run: readings come from `now`, sleeps go to `sleep`, checks to
/// `check`. A reading that the run refuses ends it with that error.
fn drive<T, P>(
    poller: &Poller,
    mut now: impl FnMut() -> u64,
    mut sleep: impl FnMut(u64),
    mut check: impl FnMut() -> ControlFlow<T, P>,
) -> Result<PollOutcome<T, P>, PollError> {
    let mut action = poller.start::<T, P>();
    loop {
        action = match action {
            PollAction::ReadClock(read) => read.read(now())?,
            PollAction::Check(due) => due.checked(check()),
            PollAction::Sleep(due) => {
                sleep(due.delay_ms());
                due.slept()
            }
            PollAction::Stop(outcome) => return Ok(outcome),
        };
    }
}

/// Scripted clock readings in whole seconds, and the sleeps asked for in milliseconds.
struct Timeline {
    readings: RefCell<VecDeque<u64>>,
    sleeps: RefCell<Vec<u64>>,
}

impl Timeline {
    fn new(seconds: &[u64]) -> Self {
        Self { readings: RefCell::new(seconds.iter().copied().collect()), sleeps: RefCell::default() }
    }

    fn now(&self) -> u64 {
        self.readings.borrow_mut().pop_front().expect("unexpected clock read") * 1000
    }

    fn sleep(&self, millis: u64) {
        self.sleeps.borrow_mut().push(millis);
    }
}

fn poller(timeout: u64) -> Poller {
    Poller::builder(Span::from_secs(3)).timeout(Span::from_secs(timeout)).build().unwrap()
}

#[test]
fn building_rejects_zero_attempts() {
    let error = Poller::builder(Span::from_secs(1)).max_attempts(0).build().unwrap_err();

    assert_eq!(error.code(), 400);
    assert_eq!(error.message(), "poll max_attempts must be positive");
}

#[test]
fn invalid_durations_fail_during_build() {
    for (interval, timeout) in [
        (Span::zero(), Span::zero()),
        (Span::from_nanos(1), Span::from_secs(1)),
        (Span::from_secs(1), Span::from_nanos(1)),
        (Span::max_value(), Span::from_secs(1)),
        (Span::from_secs(1), Span::max_value()),
    ] {
        let result = PollerBuilder::new(interval).timeout(timeout).build();

        assert!(result.is_err(), "accepted {interval:?}, {timeout:?}");
        assert_eq!(result.unwrap_err().code(), 400);
    }
}

#[test]
fn duration_ranges_include_the_cap_but_not_the_next_millisecond() {
    let cap = Span::from_millis(MAX_SPAN_MILLIS);
    for duration in [cap, cap.checked_add(&Span::from_millis(1)).unwrap()] {
        let interval = Poller::builder(duration).build();
        let timeout = Poller::builder(Span::from_secs(1)).timeout(duration).build();

        for result in [interval, timeout] {
            if duration == cap {
                assert!(result.is_ok());
            } else {
                assert_eq!(result.unwrap_err().code(), 400);
            }
        }
    }
}

#[test]
fn build_errors_come_in_order_with_their_messages() {
    assert_eq!(
        Poller::builder(Span::zero()).max_attempts(0).build().unwrap_err(),
        PollError::IntervalNotPositive
    );
    assert_eq!(
        Poller::builder(Span::from_nanos(1)).timeout(Span::from_nanos(1)).build().unwrap_err(),
        PollError::IntervalOutOfRange
    );
    let error = Poller::builder(Span::from_secs(1)).timeout(Span::from_nanos(1)).max_attempts(0).build().unwrap_err();
    assert_eq!(error, PollError::TimeoutOutOfRange);
    assert_eq!(error.message(), "poll timeout must be whole milliseconds, at most 9223372036854775807ms");
    assert_eq!(
        PollError::IntervalOutOfRange.message(),
        "poll interval must be whole milliseconds, at most 9223372036854775807ms"
    );
    assert_eq!(PollError::IntervalNotPositive.message(), "poll interval must be positive");
}

#[test]
fn pending_observations_wait_before_trying_again() {
    let mut times = [0u64, 2, 5, 7, 10].into_iter();
    let mut values = [2, 6, 10].into_iter();
    let mut sleeps = Vec::new();

    let outcome = drive(
        &poller(30),
        || times.next().unwrap() * 1000,
        |millis| sleeps.push(millis),
        || {
            let value = values.next().unwrap();
            if value >= 10 { ControlFlow::Break(value) } else { ControlFlow::Continue(value) }
        },
    )
    .unwrap();

    assert_eq!(outcome, PollOutcome::Finished(10));
    assert_eq!(sleeps, [3000; 2]);
}

#[test]
fn attempt_limit_includes_the_first_check_and_keeps_the_last_value() {
    for (limit, expected_sleeps) in [(1u32, vec![]), (3, vec![3000u64; 2])] {
        let poller = Poller::builder(Span::from_secs(3)).max_attempts(limit).build().unwrap();
        let time = Timeline::new(&[]);
        let mut checks = 0;

        let outcome = drive(
            &poller,
            || time.now(),
            |millis| time.sleep(millis),
            || {
                checks += 1;
                assert!(checks <= limit, "no check after the attempt limit");
                ControlFlow::<(), _>::Continue(checks)
            },
        )
        .unwrap();

        assert_eq!(checks, limit);
        assert_eq!(outcome, PollOutcome::Failed { reason: PollFailure::AttemptsExhausted, last: limit });
        assert_eq!(*time.sleeps.borrow(), expected_sleeps);
    }
}

#[test]
fn a_final_result_on_the_last_allowed_check_wins() {
    let poller = Poller::builder(Span::from_secs(3)).max_attempts(2).build().unwrap();

    for conclusion in [Ok(10), Err("resource failed")] {
        let time = Timeline::new(&[]);
        let mut checks = 0;

        let outcome = drive(
            &poller,
            || time.now(),
            |millis| time.sleep(millis),
            || {
                checks += 1;
                if checks == 1 { ControlFlow::Continue(9) } else { ControlFlow::Break(conclusion) }
            },
        )
        .unwrap();

        assert_eq!(outcome, PollOutcome::Finished(conclusion));
        assert_eq!(checks, 2);
        assert_eq!(*time.sleeps.borrow(), [3000]);
    }
}

#[test]
fn attempt_limit_wins_when_both_limits_apply_after_a_pending_check() {
    for timeout in [Span::zero(), Span::from_secs(5)] {
        let poller = Poller::builder(Span::from_secs(1)).timeout(timeout).max_attempts(1).build().unwrap();
        let seconds = Cell::new(0u64);

        let outcome = drive(
            &poller,
            || seconds.get() * 1000,
            |_| panic!("the last allowed check cannot sleep"),
            || {
                seconds.set(20);
                ControlFlow::<(), _>::Continue("pending")
            },
        )
        .unwrap();

        assert_eq!(outcome, PollOutcome::Failed { reason: PollFailure::AttemptsExhausted, last: "pending" });
    }
}

#[test]
fn timeout_can_stop_polling_before_all_attempts_are_used() {
    let poller = Poller::builder(Span::from_secs(3)).timeout(Span::from_secs(2)).max_attempts(10).build().unwrap();
    let time = Timeline::new(&[0, 1, 2]);
    let mut checks = 0;

    let outcome = drive(
        &poller,
        || time.now(),
        |millis| time.sleep(millis),
        || {
            checks += 1;
            ControlFlow::<(), _>::Continue(checks)
        },
    )
    .unwrap();

    assert_eq!(outcome, PollOutcome::Failed { reason: PollFailure::TimedOut, last: 1 });
    assert_eq!(checks, 1);
    assert_eq!(*time.sleeps.borrow(), [1000]);
}

#[test]
fn final_results_win_over_both_limits() {
    let poller = Poller::builder(Span::from_secs(1)).timeout(Span::zero()).max_attempts(1).build().unwrap();
    let time = Timeline::new(&[0]);

    let outcome = drive(
        &poller,
        || time.now(),
        |_| panic!("a final result stops polling"),
        || ControlFlow::<_, ()>::Break(10),
    )
    .unwrap();

    assert_eq!(outcome, PollOutcome::Finished(10));
}

#[test]
fn reusing_a_poller_starts_a_fresh_attempt_count() {
    let poller = Poller::builder(Span::from_secs(3)).max_attempts(2).build().unwrap();
    let time = Timeline::new(&[]);
    let mut checks = 0;

    for expected_last in [2, 4] {
        let outcome = drive(
            &poller,
            || time.now(),
            |millis| time.sleep(millis),
            || {
                checks += 1;
                ControlFlow::<(), _>::Continue(checks)
            },
        )
        .unwrap();

        assert_eq!(outcome, PollOutcome::Failed { reason: PollFailure::AttemptsExhausted, last: expected_last });
    }

    assert_eq!(*time.sleeps.borrow(), [3000; 2]);
}

#[test]
fn no_timeout_keeps_checking_without_reading_the_clock() {
    let poller = Poller::builder(Span::from_secs(3)).build().unwrap();
    let time = Timeline::new(&[]);
    let mut values = [1, 4, 9, 10].into_iter();

    let outcome = drive(
        &poller,
        || time.now(),
        |millis| time.sleep(millis),
        || {
            let value = values.next().expect("stop at ten");
            if value >= 10 { ControlFlow::Break(value) } else { ControlFlow::Continue(value) }
        },
    )
    .unwrap();

    assert_eq!(outcome, PollOutcome::Finished(10));
    assert_eq!(*time.sleeps.borrow(), [3000; 3]);
}

#[test]
fn reusing_a_poller_starts_a_fresh_timeout() {
    let poller = poller(5);

    for start in [0, 100] {
        let time = Timeline::new(&[start, start + 4, start + 5]);

        let outcome = drive(
            &poller,
            || time.now(),
            |millis| time.sleep(millis),
            || ControlFlow::<(), _>::Continue("pending"),
        )
        .unwrap();

        assert_eq!(outcome, PollOutcome::Failed { reason: PollFailure::TimedOut, last: "pending" });
        assert_eq!(*time.sleeps.borrow(), [1000]);
    }
}

#[test]
fn zero_timeout_observes_once_and_preserves_pending_or_finished() {
    for decision in [ControlFlow::Break(10), ControlFlow::Continue(4)] {
        let time = Timeline::new(&[0]);
        let mut observations = 0;

        let outcome = drive(
            &poller(0),
            || time.now(),
            |millis| time.sleep(millis),
            || {
                observations += 1;
                decision
            },
        )
        .unwrap();

        assert_eq!(observations, 1);
        assert!(time.sleeps.borrow().is_empty());

        match decision {
            ControlFlow::Break(_) => assert_eq!(outcome, PollOutcome::Finished(10)),
            ControlFlow::Continue(_) => {
                assert_eq!(outcome, PollOutcome::Failed { reason: PollFailure::TimedOut, last: 4 })
            }
        }
    }
}

#[test]
fn timeout_keeps_the_latest_pending_value_and_clips_the_last_sleep() {
    let time = Timeline::new(&[0, 2, 5, 7, 10]);
    let mut observations = 0;

    let outcome = drive(
        &poller(10),
        || time.now(),
        |millis| time.sleep(millis),
        || {
            observations += 1;
            ControlFlow::<(), _>::Continue(observations)
        },
    )
    .unwrap();

    assert_eq!(outcome, PollOutcome::Failed { reason: PollFailure::TimedOut, last: 2 });
    assert_eq!(*time.sleeps.borrow(), [3000; 2]);

    let time = Timeline::new(&[0, 1, 2]);

    let outcome = drive(
        &poller(2),
        || time.now(),
        |millis| time.sleep(millis),
        || ControlFlow::<(), _>::Continue("pending"),
    )
    .unwrap();

    assert_eq!(outcome, PollOutcome::Failed { reason: PollFailure::TimedOut, last: "pending" });
    assert_eq!(*time.sleeps.borrow(), [1000]);
}

#[test]
fn observation_time_counts_and_deadline_equality_expires() {
    for completed_at in [5, 7] {
        let time = Timeline::new(&[0, completed_at]);

        let outcome = drive(
            &poller(5),
            || time.now(),
            |millis| time.sleep(millis),
            || ControlFlow::<(), _>::Continue("still starting"),
        )
        .unwrap();

        assert_eq!(outcome, PollOutcome::Failed { reason: PollFailure::TimedOut, last: "still starting" });
        assert!(time.sleeps.borrow().is_empty());
    }
}

#[test]
fn a_late_conclusion_wins_without_a_post_completion_clock_read() {
    let seconds = Cell::new(0u64);

    let outcome = drive(
        &poller(5),
        || seconds.get() * 1000,
        |_| panic!("no sleep after a conclusion"),
        || {
            seconds.set(20);
            ControlFlow::<_, ()>::Break("resource failed")
        },
    )
    .unwrap();

    assert_eq!(outcome, PollOutcome::Finished("resource failed"));
}

#[test]
fn backward_clock_readings_do_not_restore_time() {
    let time = Timeline::new(&[100, 104, 103, 102, 105]);

    let outcome = drive(
        &poller(5),
        || time.now(),
        |millis| time.sleep(millis),
        || ControlFlow::<(), _>::Continue(1),
    )
    .unwrap();

    assert_eq!(outcome, PollOutcome::Failed { reason: PollFailure::TimedOut, last: 1 });
    assert_eq!(*time.sleeps.borrow(), [1000; 2]);
}

#[test]
fn time_passing_during_sleep_stops_before_another_observation() {
    let time = Timeline::new(&[0, 1, 60]);
    let mut observations = 0;

    let outcome = drive(
        &poller(10),
        || time.now(),
        |millis| time.sleep(millis),
        || {
            observations += 1;
            ControlFlow::<(), _>::Continue(observations)
        },
    )
    .unwrap();

    assert_eq!(outcome, PollOutcome::Failed { reason: PollFailure::TimedOut, last: 1 });
    assert_eq!(observations, 1);
}

#[test]
fn unrepresentable_deadlines_are_terminal_configuration_errors() {
    let result: Result<PollOutcome<(), ()>, _> = drive(
        &poller(1),
        || u64::MAX,
        |_| panic!("invalid deadline cannot sleep"),
        || panic!("invalid deadline cannot check"),
    );

    let error = result.unwrap_err();
    assert_eq!(error, PollError::DeadlineOutOfRange);
    assert_eq!(error.code(), 400);
    assert_eq!(error.message(), "poll deadline exceeds the timer range");
}

#[test]
fn a_deadline_counts_from_the_latest_reading_and_expires_at_equality() {
    let mut deadline = Deadline::new(100_000, 5_000).unwrap();

    assert_eq!(deadline.remaining(104_000), 1_000);
    assert_eq!(deadline.remaining(103_000), 1_000);
    assert_eq!(deadline.remaining(102_000), 1_000);
    assert_eq!(deadline.remaining(105_000), 0);
    assert_eq!(deadline.remaining(90_000), 0);

    assert_eq!(Deadline::new(u64::MAX - 5, 5).unwrap().remaining(0), 5);
    assert_eq!(Deadline::new(u64::MAX - 5, 6).unwrap_err(), PollError::DeadlineOutOfRange);
}

#[test]
fn sleeps_are_clipped_to_the_deadline_but_never_zero() {
    let poller = Poller::builder(Span::from_millis(3000)).timeout(Span::from_millis(4500)).build().unwrap();
    let time = Timeline::new(&[]);
    let mut readings = [0u64, 1_000, 3_000, 4_000, 4_499, 4_500].into_iter();
    let mut checks = 0;

    let outcome = drive(
        &poller,
        || readings.next().expect("unexpected clock read"),
        |millis| time.sleep(millis),
        || {
            checks += 1;
            ControlFlow::<(), _>::Continue(checks)
        },
    )
    .unwrap();

    assert_eq!(*time.sleeps.borrow(), [3000, 500]);
    assert_eq!(outcome, PollOutcome::Failed { reason: PollFailure::TimedOut, last: 3 });
}
