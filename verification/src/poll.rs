//! Fixed-delay polling with optional timeout and attempt limits.
//!
//! A [`PollerBuilder`] validates the configuration into a reusable [`Poller`]. A poll run
//! is a sequence of steps: [`Poller::start`] names the first thing to do, and each
//! [`PollAction`] hands back a value that takes the result of doing it and names the
//! next thing, until the run stops with a [`PollOutcome`]. The caller performs the
//! actions (a check, a journaled clock reading, a durable sleep) and propagates their
//! errors; every decision about what comes next is made here.
//!
//! Clock readings and deadlines are milliseconds since the Unix epoch, the unit a
//! journaled clock step records and a durable timer is registered in.

use core::ops::ControlFlow;
use vstd::prelude::*;

use crate::span::{Span, NANOS_PER_MILLI};

verus! {

/// Longest interval or timeout, in milliseconds. Timers carry unsigned 64-bit epoch
/// milliseconds; half that range is left for the host timestamp a timer is added to.
pub const MAX_MILLIS: u64 = u64::MAX / 2;

/// Why a poller configuration or a poll run was rejected. Every rejection is a terminal
/// error with status code 400.
#[derive(Clone, Copy, Debug, PartialEq, Eq)]
pub enum PollError {
    /// The interval is zero.
    IntervalNotPositive,
    /// The interval is not whole milliseconds or exceeds [`MAX_MILLIS`].
    IntervalOutOfRange,
    /// The timeout is not whole milliseconds or exceeds [`MAX_MILLIS`].
    TimeoutOutOfRange,
    /// The attempt limit is zero.
    AttemptsNotPositive,
    /// The deadline computed from the first clock reading exceeds the timer range.
    DeadlineOutOfRange,
}

impl PollError {
    /// The text of the error.
    pub open spec fn message_text(self) -> Seq<char> {
        match self {
            PollError::IntervalNotPositive => "poll interval must be positive"@,
            PollError::IntervalOutOfRange =>
                "poll interval must be whole milliseconds, at most 9223372036854775807ms"@,
            PollError::TimeoutOutOfRange =>
                "poll timeout must be whole milliseconds, at most 9223372036854775807ms"@,
            PollError::AttemptsNotPositive => "poll max_attempts must be positive"@,
            PollError::DeadlineOutOfRange => "poll deadline exceeds the timer range"@,
        }
    }

    /// The text of the error.
    pub fn message(&self) -> (text: &'static str)
        ensures
            text@ == self.message_text(),
    {
        match self {
            PollError::IntervalNotPositive => "poll interval must be positive",
            PollError::IntervalOutOfRange =>
                "poll interval must be whole milliseconds, at most 9223372036854775807ms",
            PollError::TimeoutOutOfRange =>
                "poll timeout must be whole milliseconds, at most 9223372036854775807ms",
            PollError::AttemptsNotPositive => "poll max_attempts must be positive",
            PollError::DeadlineOutOfRange => "poll deadline exceeds the timer range",
        }
    }

    /// The status code of the terminal error: always 400.
    pub fn code(&self) -> (code: u16)
        ensures
            code == 400,
    {
        400
    }
}

/// Whether a span is whole milliseconds and at most [`MAX_MILLIS`] of them.
pub open spec fn valid_span(span: Span) -> bool {
    &&& span@ % (NANOS_PER_MILLI as nat) == 0
    &&& span@ <= MAX_MILLIS * NANOS_PER_MILLI
}

/// The length of a span in whole milliseconds.
pub open spec fn span_millis(span: Span) -> nat {
    span@ / (NANOS_PER_MILLI as nat)
}

/// Checks a condition repeatedly, waiting a fixed interval between checks.
///
/// Holds a validated configuration: the interval in milliseconds, the optional timeout in
/// milliseconds, and the optional limit on the number of checks. Each run started from it
/// has its own timeout and attempt count, so one poller serves any number of runs.
#[derive(Clone, Copy, Debug, PartialEq, Eq)]
pub struct Poller {
    interval_ms: u64,
    timeout_ms: Option<u64>,
    max_attempts: Option<u32>,
}

/// Configures a [`Poller`]: the interval up front, then optionally a timeout and an
/// attempt limit; [`PollerBuilder::build`] validates them.
#[derive(Clone, Copy, Debug)]
pub struct PollerBuilder {
    interval: Span,
    timeout: Option<Span>,
    max_attempts: Option<u32>,
}

/// The first rule that a builder's configuration breaks, in the order `build` checks them.
pub open spec fn build_error(builder: PollerBuilder) -> Option<PollError> {
    if builder.configured_interval()@ == 0 {
        Some(PollError::IntervalNotPositive)
    } else if !valid_span(builder.configured_interval()) {
        Some(PollError::IntervalOutOfRange)
    } else if builder.configured_timeout() matches Some(t) && !valid_span(t) {
        Some(PollError::TimeoutOutOfRange)
    } else if builder.configured_max_attempts() == Some(0u32) {
        Some(PollError::AttemptsNotPositive)
    } else {
        None
    }
}

/// Whether a builder's configuration is one that builds, stated on the lengths in
/// nanoseconds: a positive interval, an interval and a timeout (if set) that are whole
/// milliseconds and at most [`MAX_MILLIS`] of them, and an attempt limit (if set) that is
/// not zero.
pub open spec fn builds(builder: PollerBuilder) -> bool {
    let interval = builder.configured_interval()@;
    &&& interval > 0
    &&& interval % 1_000_000 == 0
    &&& interval <= 9_223_372_036_854_775_807 * 1_000_000
    &&& builder.configured_timeout() matches Some(t) ==> (t@ % 1_000_000 == 0 && t@
        <= 9_223_372_036_854_775_807 * 1_000_000)
    &&& builder.configured_max_attempts() != Some(0u32)
}

/// Law: a configuration is rejected exactly when it breaks a rule, and the error names
/// the first rule broken: a zero interval; an interval that is not whole milliseconds or
/// exceeds [`MAX_MILLIS`] of them; such a timeout; a zero attempt limit.
pub proof fn lemma_build_rejects_exactly_the_broken_rules(builder: PollerBuilder)
    ensures
        build_error(builder) is None <==> {
            &&& builder.configured_interval()@ > 0
            &&& builder.configured_interval()@ % 1_000_000 == 0
            &&& builder.configured_interval()@ <= 9_223_372_036_854_775_807 * 1_000_000
            &&& builder.configured_timeout() matches Some(t) ==> (t@ % 1_000_000 == 0 && t@
                <= 9_223_372_036_854_775_807 * 1_000_000)
            &&& builder.configured_max_attempts() != Some(0u32)
        },
        builds(builder) <==> build_error(builder) is None,
        build_error(builder) == Some(PollError::IntervalNotPositive) <==> builder.configured_interval()@
            == 0,
        build_error(builder) == Some(PollError::IntervalOutOfRange) <==> {
            let interval = builder.configured_interval()@;
            interval > 0 && (interval % 1_000_000 != 0 || interval > 9_223_372_036_854_775_807
                * 1_000_000)
        },
        build_error(builder) == Some(PollError::AttemptsNotPositive) ==> builder.configured_max_attempts()
            == Some(0u32),
        build_error(builder) == Some(PollError::TimeoutOutOfRange) ==> (
        builder.configured_timeout() matches Some(t) && (t@ % 1_000_000 != 0 || t@
            > 9_223_372_036_854_775_807 * 1_000_000)),
        build_error(builder) != Some(PollError::DeadlineOutOfRange),
{
}

impl PollerBuilder {
    /// The delay between checks.
    pub closed spec fn configured_interval(self) -> Span {
        self.interval
    }

    /// The timeout, if one was set.
    pub closed spec fn configured_timeout(self) -> Option<Span> {
        self.timeout
    }

    /// The attempt limit, if one was set.
    pub closed spec fn configured_max_attempts(self) -> Option<u32> {
        self.max_attempts
    }

    /// Starts configuring a poller with the delay between checks, without a timeout or an
    /// attempt limit. The interval is validated by [`Self::build`].
    pub fn new(interval: Span) -> (builder: PollerBuilder)
        ensures
            builder.configured_interval() == interval,
            builder.configured_timeout() is None,
            builder.configured_max_attempts() is None,
    {
        PollerBuilder { interval, timeout: None, max_attempts: None }
    }

    /// How long to keep polling, starting before the first check. Zero means one check.
    pub fn timeout(self, timeout: Span) -> (builder: PollerBuilder)
        ensures
            builder.configured_interval() == self.configured_interval(),
            builder.configured_timeout() == Some(timeout),
            builder.configured_max_attempts() == self.configured_max_attempts(),
    {
        PollerBuilder { timeout: Some(timeout), ..self }
    }

    /// The largest number of checks, the first included.
    pub fn max_attempts(self, max_attempts: u32) -> (builder: PollerBuilder)
        ensures
            builder.configured_interval() == self.configured_interval(),
            builder.configured_timeout() == self.configured_timeout(),
            builder.configured_max_attempts() == Some(max_attempts),
    {
        PollerBuilder { max_attempts: Some(max_attempts), ..self }
    }

    /// Validates the configuration and creates a reusable poller.
    ///
    /// Rejects a zero interval, an interval or timeout that is not whole milliseconds or
    /// exceeds [`MAX_MILLIS`] milliseconds, and a zero attempt limit, in that order.
    pub fn build(self) -> (result: Result<Poller, PollError>)
        ensures
            result is Err <==> build_error(self) is Some,
            result matches Err(e) ==> build_error(self) == Some(e),
            result is Ok <==> builds(self),
            result matches Ok(poller) ==> {
                &&& poller.interval_ms() == span_millis(self.configured_interval())
                &&& poller.timeout_ms() == match self.configured_timeout() {
                    Some(t) => Some(span_millis(t)),
                    None => None::<nat>,
                }
                &&& poller.attempt_limit() == match self.configured_max_attempts() {
                    Some(n) => Some(n as nat),
                    None => None::<nat>,
                }
            },
    {
        if self.interval.is_zero() {
            return Err(PollError::IntervalNotPositive);
        }
        let interval_ms = match span_to_millis(&self.interval) {
            Some(ms) => ms,
            None => return Err(PollError::IntervalOutOfRange),
        };
        let timeout_ms = match self.timeout {
            Some(timeout) => match span_to_millis(&timeout) {
                Some(ms) => Some(ms),
                None => return Err(PollError::TimeoutOutOfRange),
            },
            None => None,
        };
        if self.max_attempts == Some(0u32) {
            return Err(PollError::AttemptsNotPositive);
        }
        Ok(Poller { interval_ms, timeout_ms, max_attempts: self.max_attempts })
    }
}

/// The whole milliseconds of a span that [`valid_span`] accepts, or `None`.
fn span_to_millis(span: &Span) -> (millis: Option<u64>)
    ensures
        millis is Some <==> valid_span(*span),
        millis matches Some(ms) ==> ms == span_millis(*span) && ms <= MAX_MILLIS,
{
    let nanos = span.subsec_nanos();
    let millis = span.as_millis();
    proof {
        let total = span@ as int;
        let n: int = 1_000_000;
        vstd::arithmetic::div_mod::lemma_fundamental_div_mod(total, 1_000_000_000);
        vstd::arithmetic::div_mod::lemma_fundamental_div_mod(total, n);
        let s = total / 1_000_000_000;
        assert(total == s * 1_000_000_000 + nanos);
        assert(total == (s * 1000) * n + nanos) by (nonlinear_arith)
            requires
                total == s * 1_000_000_000 + nanos,
                n == 1_000_000,
        ;
        vstd::arithmetic::div_mod::lemma_mod_multiples_vanish(s * 1000, nanos as int, n);
        assert(total % n == (nanos as int) % n);
        assert(millis == total / n);
        if nanos % NANOS_PER_MILLI == 0 {
            assert(total == millis * n) by (nonlinear_arith)
                requires
                    total == n * (total / n) + total % n,
                    millis == total / n,
                    total % n == 0,
            ;
            if millis <= MAX_MILLIS {
                assert(total <= MAX_MILLIS * n) by (nonlinear_arith)
                    requires
                        total == millis * n,
                        millis <= MAX_MILLIS,
                        n > 0,
                ;
            } else {
                assert(total > MAX_MILLIS * n) by (nonlinear_arith)
                    requires
                        total == millis * n,
                        millis > MAX_MILLIS,
                        n > 0,
                ;
            }
        }
    }
    if nanos % NANOS_PER_MILLI == 0 && millis <= MAX_MILLIS as u128 {
        Some(millis as u64)
    } else {
        None
    }
}

impl Poller {
    /// The type invariant: what [`PollerBuilder::build`] accepts.
    #[verifier::type_invariant]
    pub closed spec fn inv(self) -> bool {
        &&& 0 < self.interval_ms <= MAX_MILLIS
        &&& self.timeout_ms matches Some(t) ==> t <= MAX_MILLIS
        &&& self.max_attempts matches Some(m) ==> m > 0
    }

    /// The delay between checks, in milliseconds.
    pub closed spec fn interval_ms(self) -> nat {
        self.interval_ms as nat
    }

    /// The timeout in milliseconds, if any.
    pub closed spec fn timeout_ms(self) -> Option<nat> {
        match self.timeout_ms {
            Some(t) => Some(t as nat),
            None => None,
        }
    }

    /// The largest number of checks in a run, if limited.
    pub closed spec fn attempt_limit(self) -> Option<nat> {
        match self.max_attempts {
            Some(m) => Some(m as nat),
            None => None,
        }
    }

    /// Starts configuring a poller with the delay between checks. See [`PollerBuilder::new`].
    pub fn builder(interval: Span) -> (builder: PollerBuilder)
        ensures
            builder.configured_interval() == interval,
            builder.configured_timeout() is None,
            builder.configured_max_attempts() is None,
    {
        PollerBuilder::new(interval)
    }

    /// The state of a run before its first step: nothing checked, slept or read yet, and
    /// the whole attempt limit left.
    pub open spec fn fresh_run(self) -> RunView {
        RunView {
            interval: self.interval_ms(),
            timeout: self.timeout_ms(),
            max_attempts: self.attempt_limit(),
            deadline: None,
            remaining: self.attempt_limit(),
            checks: 0,
            sleeps: 0,
        }
    }

    /// Starts a run. With a timeout, the first step reads the clock, so the deadline counts
    /// from before the first check; without one, the first step is the check itself.
    pub fn start<T, P>(&self) -> (action: PollAction<T, P>)
        ensures
            self.timeout_ms() is Some ==> (action matches PollAction::ReadClock(read) && read.run()
                == self.fresh_run() && read.stage() == ClockStage::<P>::Start),
            self.timeout_ms() is None ==> (action matches PollAction::Check(check) && check.run()
                == self.fresh_run()),
    {
        proof {
            use_type_invariant(self);
        }
        let run = Run {
            interval_ms: self.interval_ms,
            timeout_ms: self.timeout_ms,
            max_attempts: self.max_attempts,
            deadline: None,
            remaining: self.max_attempts,
            checks: Ghost(0),
            sleeps: Ghost(0),
        };
        if self.timeout_ms.is_some() {
            PollAction::ReadClock(ClockRead { run, stage: ClockStage::Start })
        } else {
            PollAction::Check(CheckDue { run })
        }
    }
}

/// Why polling stopped and the value of the last check.
///
/// `T` is the result of a check that decided to stop, `P` the value of a check that asked
/// to keep waiting.
#[derive(Clone, Debug, PartialEq, Eq)]
pub enum PollOutcome<T, P> {
    /// A check decided to stop and returned this result.
    Finished(T),
    /// A limit was reached before a check returned a final result.
    Failed {
        /// Which limit stopped polling.
        reason: PollFailure,
        /// The value from the last check.
        last: P,
    },
}

/// The limit that stopped polling before a check supplied a final result.
#[derive(Clone, Copy, Debug, PartialEq, Eq)]
pub enum PollFailure {
    /// The configured timeout was reached.
    TimedOut,
    /// The last allowed check still asked to keep waiting.
    AttemptsExhausted,
}

/// A deadline in epoch milliseconds, with the latest clock reading seen so far.
///
/// The remaining time counts from the latest reading, so a clock that goes backwards does
/// not give time back.
#[derive(Clone, Copy, Debug)]
pub struct Deadline {
    at: u64,
    latest: u64,
}

impl Deadline {
    /// The deadline, in epoch milliseconds.
    pub closed spec fn at(self) -> nat {
        self.at as nat
    }

    /// The latest clock reading seen, in epoch milliseconds.
    pub closed spec fn latest(self) -> nat {
        self.latest as nat
    }

    /// The deadline after seeing a reading of `now`: the latest reading is the larger one.
    pub closed spec fn observed(self, now: u64) -> Deadline {
        Deadline { at: self.at, latest: if now > self.latest { now } else { self.latest } }
    }

    /// Seeing a reading of `now` keeps the deadline, and the latest reading becomes the
    /// larger of `now` and the one seen before.
    pub proof fn lemma_observed(self, now: u64)
        ensures
            self.observed(now).at() == self.at(),
            self.observed(now).latest() == if now > self.latest() {
                now as nat
            } else {
                self.latest()
            },
    {
    }

    /// The time left after seeing a reading of `now`: from the larger of `now` and the
    /// latest reading to the deadline, or zero once that reaches the deadline.
    pub open spec fn remaining_after(self, now: u64) -> nat {
        let seen = self.observed(now).latest();
        if self.at() > seen {
            (self.at() - seen) as nat
        } else {
            0
        }
    }

    /// The deadline `timeout_ms` after a first reading of `start_ms`, or
    /// [`PollError::DeadlineOutOfRange`] when it exceeds the unsigned 64-bit millisecond
    /// range of timers.
    pub fn new(start_ms: u64, timeout_ms: u64) -> (result: Result<Deadline, PollError>)
        ensures
            start_ms + timeout_ms > u64::MAX ==> result == Err::<Deadline, PollError>(
                PollError::DeadlineOutOfRange,
            ),
            start_ms + timeout_ms <= u64::MAX ==> (result matches Ok(d) && d.at() == start_ms
                + timeout_ms && d.latest() == start_ms),
    {
        match start_ms.checked_add(timeout_ms) {
            Some(at) => Ok(Deadline { at, latest: start_ms }),
            None => Err(PollError::DeadlineOutOfRange),
        }
    }

    /// Sees a reading of `now_ms` and returns the time left, in milliseconds.
    pub fn remaining(&mut self, now_ms: u64) -> (left: u64)
        ensures
            *final(self) == old(self).observed(now_ms),
            left == old(self).remaining_after(now_ms),
    {
        if now_ms > self.latest {
            self.latest = now_ms;
        }
        if self.at > self.latest {
            self.at - self.latest
        } else {
            0
        }
    }
}

/// What a run carries from step to step, as a value for contracts.
pub struct RunView {
    /// The delay between checks, in milliseconds.
    pub interval: nat,
    /// The timeout in milliseconds, if any.
    pub timeout: Option<nat>,
    /// The attempt limit, if any.
    pub max_attempts: Option<nat>,
    /// The deadline, once the first clock reading has set it.
    pub deadline: Option<Deadline>,
    /// The checks still allowed, when the attempts are limited.
    pub remaining: Option<nat>,
    /// The checks made so far in this run.
    pub checks: nat,
    /// The sleeps made so far in this run.
    pub sleeps: nat,
}

impl RunView {
    /// The run after one more check asked to keep waiting: one attempt fewer left.
    pub open spec fn after_check(self) -> RunView {
        RunView {
            remaining: match self.remaining {
                Some(r) => Some((r - 1) as nat),
                None => None,
            },
            checks: self.checks + 1,
            ..self
        }
    }

    /// The run after one more sleep.
    pub open spec fn after_sleep(self) -> RunView {
        RunView { sleeps: self.sleeps + 1, ..self }
    }

    /// The run with its deadline replaced.
    pub open spec fn with_deadline(self, deadline: Deadline) -> RunView {
        RunView { deadline: Some(deadline), ..self }
    }
}

/// The state of a run between steps.
struct Run {
    interval_ms: u64,
    timeout_ms: Option<u64>,
    max_attempts: Option<u32>,
    deadline: Option<Deadline>,
    remaining: Option<u32>,
    checks: Ghost<nat>,
    sleeps: Ghost<nat>,
}

impl Run {
    spec fn view(self) -> RunView {
        RunView {
            interval: self.interval_ms as nat,
            timeout: match self.timeout_ms {
                Some(t) => Some(t as nat),
                None => None,
            },
            max_attempts: match self.max_attempts {
                Some(m) => Some(m as nat),
                None => None,
            },
            deadline: self.deadline,
            remaining: match self.remaining {
                Some(r) => Some(r as nat),
                None => None,
            },
            checks: self.checks@,
            sleeps: self.sleeps@,
        }
    }

    /// What holds at every step: a valid configuration, and, when attempts are limited,
    /// at least one attempt left and the checks made plus those left equal to the limit.
    spec fn wf(self) -> bool {
        &&& 0 < self.interval_ms <= MAX_MILLIS
        &&& self.timeout_ms matches Some(t) ==> t <= MAX_MILLIS
        &&& self.deadline is Some ==> self.timeout_ms is Some
        &&& (self.max_attempts is Some) == (self.remaining is Some)
        &&& self.remaining matches Some(r) ==> (r >= 1 && (self.max_attempts matches Some(m)
            && self.checks@ + r == m))
    }
}

/// Which clock reading a [`ClockRead`] is waiting for, and the value it keeps meanwhile.
pub enum ClockStage<P> {
    /// The reading before the first check, which sets the deadline.
    Start,
    /// The reading after a check asked to keep waiting, which sizes the next sleep.
    BeforeSleep(P),
    /// The reading after a sleep, which decides whether another check follows.
    AfterSleep(P),
}

/// A run waiting for a reading of the clock, in epoch milliseconds.
pub struct ClockRead<P> {
    run: Run,
    stage: ClockStage<P>,
}

/// A run waiting for the result of a check.
pub struct CheckDue {
    run: Run,
}

/// A run waiting for a sleep to finish, keeping the value of the last check.
pub struct SleepDue<P> {
    run: Run,
    last: P,
    delay_ms: u64,
}

/// The next step of a run.
pub enum PollAction<T, P> {
    /// Read the clock and pass the reading to [`ClockRead::read`].
    ReadClock(ClockRead<P>),
    /// Run the check and pass its result to [`CheckDue::checked`].
    Check(CheckDue),
    /// Sleep for [`SleepDue::delay_ms`] and then call [`SleepDue::slept`].
    Sleep(SleepDue<P>),
    /// The run is over.
    Stop(PollOutcome<T, P>),
}

impl<P> ClockRead<P> {
    /// What holds while a run waits for a clock reading: there is a timeout; before the
    /// first check nothing has happened yet and the deadline is not set; later the
    /// deadline is set, and a reading before a sleep follows one sleep fewer than checks,
    /// a reading after a sleep as many sleeps as checks.
    #[verifier::type_invariant]
    pub closed spec fn inv(self) -> bool {
        &&& self.run.wf()
        &&& self.run.timeout_ms is Some
        &&& match self.stage {
            ClockStage::Start => {
                &&& self.run.deadline is None
                &&& self.run.checks@ == 0
                &&& self.run.sleeps@ == 0
            },
            ClockStage::BeforeSleep(_) => {
                &&& self.run.deadline is Some
                &&& self.run.checks@ >= 1
                &&& self.run.sleeps@ + 1 == self.run.checks@
                &&& self.run.timeout_ms != Some(0u64)
            },
            ClockStage::AfterSleep(_) => {
                &&& self.run.deadline is Some
                &&& self.run.checks@ >= 1
                &&& self.run.sleeps@ == self.run.checks@
            },
        }
    }

    /// The state of the run.
    pub closed spec fn run(self) -> RunView {
        self.run.view()
    }

    /// Which reading the run waits for.
    pub closed spec fn stage(self) -> ClockStage<P> {
        self.stage
    }

    /// Passes the clock reading `now_ms` to the run.
    ///
    /// The first reading sets the deadline, `timeout` after it, and the first check
    /// follows; a deadline beyond the timer range rejects the run. A later reading that
    /// leaves no time stops the run as timed out with the last value. Otherwise a reading
    /// before a sleep sleeps for the interval or the time left, whichever is shorter, and a
    /// reading after a sleep checks again.
    pub fn read<T>(self, now_ms: u64) -> (result: Result<PollAction<T, P>, PollError>)
        ensures
            match self.stage() {
                ClockStage::Start => {
                    let timeout = self.run().timeout->0;
                    if now_ms + timeout > u64::MAX {
                        result is Err && result->Err_0 == PollError::DeadlineOutOfRange
                    } else {
                        result matches Ok(PollAction::Check(check)) && check.run().deadline matches Some(
                            d,
                        ) && d.at() == now_ms + timeout && d.latest() == now_ms && check.run()
                            == self.run().with_deadline(d)
                    }
                },
                ClockStage::BeforeSleep(last) => {
                    let d = self.run().deadline->0;
                    let left = d.remaining_after(now_ms);
                    if left == 0 {
                        result == Ok::<PollAction<T, P>, PollError>(
                            PollAction::Stop(PollOutcome::Failed { reason: PollFailure::TimedOut, last }),
                        )
                    } else {
                        result matches Ok(PollAction::Sleep(sleep)) && sleep.run()
                            == self.run().with_deadline(d.observed(now_ms)) && sleep.pending() == last
                            && sleep.delay() == if self.run().interval < left {
                            self.run().interval
                        } else {
                            left
                        }
                    }
                },
                ClockStage::AfterSleep(last) => {
                    let d = self.run().deadline->0;
                    if d.remaining_after(now_ms) == 0 {
                        result == Ok::<PollAction<T, P>, PollError>(
                            PollAction::Stop(PollOutcome::Failed { reason: PollFailure::TimedOut, last }),
                        )
                    } else {
                        result matches Ok(PollAction::Check(check)) && check.run()
                            == self.run().with_deadline(d.observed(now_ms))
                    }
                },
            },
    {
        proof {
            use_type_invariant(&self);
        }
        let ClockRead { run, stage } = self;
        match stage {
            ClockStage::Start => {
                match Deadline::new(now_ms, run.timeout_ms.unwrap()) {
                    Ok(deadline) => Ok(PollAction::Check(CheckDue { run: Run { deadline: Some(deadline), ..run } })),
                    Err(e) => Err(e),
                }
            },
            ClockStage::BeforeSleep(last) => {
                let mut deadline = run.deadline.unwrap();
                let left = deadline.remaining(now_ms);
                if left == 0 {
                    Ok(PollAction::Stop(PollOutcome::Failed { reason: PollFailure::TimedOut, last }))
                } else {
                    let delay_ms = if run.interval_ms < left {
                        run.interval_ms
                    } else {
                        left
                    };
                    Ok(
                        PollAction::Sleep(
                            SleepDue { run: Run { deadline: Some(deadline), ..run }, last, delay_ms },
                        ),
                    )
                }
            },
            ClockStage::AfterSleep(last) => {
                let mut deadline = run.deadline.unwrap();
                let left = deadline.remaining(now_ms);
                if left == 0 {
                    Ok(PollAction::Stop(PollOutcome::Failed { reason: PollFailure::TimedOut, last }))
                } else {
                    Ok(PollAction::Check(CheckDue { run: Run { deadline: Some(deadline), ..run } }))
                }
            },
        }
    }
}

impl CheckDue {
    /// What holds while a run waits for a check: as many sleeps as checks so far, and a
    /// deadline exactly when there is a timeout.
    #[verifier::type_invariant]
    pub closed spec fn inv(self) -> bool {
        &&& self.run.wf()
        &&& self.run.sleeps@ == self.run.checks@
        &&& (self.run.deadline is Some) == (self.run.timeout_ms is Some)
    }

    /// The state of the run.
    pub closed spec fn run(self) -> RunView {
        self.run.view()
    }

    /// Passes the result of a check to the run.
    ///
    /// A final result stops the run whatever the limits. A value that asks to keep waiting
    /// uses up an attempt; if it was the last one the run stops with
    /// [`PollFailure::AttemptsExhausted`], before the timeout is considered. A zero timeout
    /// then stops the run as timed out; any other timeout reads the clock before sleeping,
    /// and without a timeout the run sleeps for the whole interval.
    pub fn checked<T, P>(self, flow: ControlFlow<T, P>) -> (action: PollAction<T, P>)
        ensures
            match flow {
                ControlFlow::Break(result) => action == PollAction::<T, P>::Stop(
                    PollOutcome::Finished(result),
                ),
                ControlFlow::Continue(last) => {
                    if self.run().remaining == Some(1nat) {
                        action == PollAction::<T, P>::Stop(
                            PollOutcome::Failed { reason: PollFailure::AttemptsExhausted, last },
                        )
                    } else if self.run().timeout == Some(0nat) {
                        action == PollAction::<T, P>::Stop(
                            PollOutcome::Failed { reason: PollFailure::TimedOut, last },
                        )
                    } else if self.run().timeout is Some {
                        action matches PollAction::ReadClock(read) && read.run()
                            == self.run().after_check() && read.stage() == ClockStage::BeforeSleep(
                            last,
                        )
                    } else {
                        action matches PollAction::Sleep(sleep) && sleep.run()
                            == self.run().after_check() && sleep.pending() == last && sleep.delay()
                            == self.run().interval
                    }
                },
            },
    {
        proof {
            use_type_invariant(&self);
        }
        let last = match flow {
            ControlFlow::Break(result) => {
                return PollAction::Stop(PollOutcome::Finished(result));
            },
            ControlFlow::Continue(last) => last,
        };
        let run = self.run;
        let remaining = match run.remaining {
            Some(r) => {
                if r == 1 {
                    return PollAction::Stop(
                        PollOutcome::Failed { reason: PollFailure::AttemptsExhausted, last },
                    );
                }
                Some(r - 1)
            },
            None => None,
        };
        if run.timeout_ms == Some(0u64) {
            return PollAction::Stop(PollOutcome::Failed { reason: PollFailure::TimedOut, last });
        }
        let next = Run { remaining, checks: Ghost(run.checks@ + 1), ..run };
        if next.timeout_ms.is_some() {
            PollAction::ReadClock(ClockRead { run: next, stage: ClockStage::BeforeSleep(last) })
        } else {
            let delay_ms = next.interval_ms;
            PollAction::Sleep(SleepDue { run: next, last, delay_ms })
        }
    }
}

impl<P> SleepDue<P> {
    /// What holds while a run sleeps: one sleep fewer than checks so far, a positive delay
    /// no longer than the interval, a deadline exactly when there is a timeout, and a
    /// delay that ends no later than the deadline counted from the latest reading.
    #[verifier::type_invariant]
    pub closed spec fn inv(self) -> bool {
        &&& self.run.wf()
        &&& self.run.checks@ >= 1
        &&& self.run.sleeps@ + 1 == self.run.checks@
        &&& 0 < self.delay_ms <= self.run.interval_ms
        &&& (self.run.deadline is Some) == (self.run.timeout_ms is Some)
        &&& self.run.deadline matches Some(d) ==> d.latest + self.delay_ms <= d.at
    }

    /// The state of the run.
    pub closed spec fn run(self) -> RunView {
        self.run.view()
    }

    /// The value of the last check.
    pub closed spec fn pending(self) -> P {
        self.last
    }

    /// How long to sleep, in milliseconds.
    pub closed spec fn delay(self) -> nat {
        self.delay_ms as nat
    }

    /// How long to sleep, in milliseconds.
    pub fn delay_ms(&self) -> (delay: u64)
        ensures
            delay == self.delay(),
    {
        self.delay_ms
    }

    /// Tells the run that the sleep is over. With a timeout the clock is read before the
    /// next check; without one the next check follows.
    pub fn slept<T>(self) -> (action: PollAction<T, P>)
        ensures
            self.run().deadline is Some ==> (action matches PollAction::ReadClock(read) && read.run()
                == self.run().after_sleep() && read.stage() == ClockStage::AfterSleep(self.pending())),
            self.run().deadline is None ==> (action matches PollAction::Check(check) && check.run()
                == self.run().after_sleep()),
            action matches PollAction::ReadClock(read) ==> read.run().deadline == self.run().deadline
                && read.run().checks == self.run().checks && read.run().remaining
                == self.run().remaining,
            action matches PollAction::Check(check) ==> check.run().deadline == self.run().deadline,
            action is ReadClock || action is Check,
    {
        proof {
            use_type_invariant(&self);
        }
        let SleepDue { run, last, delay_ms } = self;
        let next = Run { sleeps: Ghost(run.sleeps@ + 1), ..run };
        if next.deadline.is_some() {
            PollAction::ReadClock(ClockRead { run: next, stage: ClockStage::AfterSleep(last) })
        } else {
            PollAction::Check(CheckDue { run: next })
        }
    }
}

/// Law: a check is only ever due while the attempt limit allows one more: fewer checks
/// have been made than the limit, so a run makes at most `max_attempts` checks.
pub proof fn lemma_checks_within_attempt_limit(check: CheckDue)
    requires
        check.inv(),
    ensures
        check.run().max_attempts matches Some(limit) ==> check.run().checks < limit,
{
}

/// Law: with an attempt limit, the checks a run has made and the attempts it has left add
/// up to the limit; without one, no attempts are counted.
pub proof fn lemma_attempts_left_add_up_to_limit(check: CheckDue)
    requires
        check.inv(),
    ensures
        (check.run().max_attempts is Some) == (check.run().remaining is Some),
        check.run().max_attempts matches Some(limit) ==> check.run().remaining == Some(
            (limit - check.run().checks) as nat,
        ),
{
}

/// Law: a check is the last one allowed exactly when the run has made one check fewer than
/// its attempt limit, so a pending value there stops the run with
/// [`PollFailure::AttemptsExhausted`].
pub proof fn lemma_last_allowed_check(check: CheckDue)
    requires
        check.inv(),
    ensures
        check.run().remaining == Some(1nat) <==> (check.run().max_attempts matches Some(limit)
            && check.run().checks + 1 == limit),
{
}

/// Law: sleeps come only between checks: a due check follows as many sleeps as checks, so
/// a run that has made `n` checks has slept at most `n - 1` times.
pub proof fn lemma_checks_follow_sleeps(check: CheckDue)
    requires
        check.inv(),
    ensures
        check.run().sleeps == check.run().checks,
{
}

/// Law: a sleep follows a check: while a run sleeps it has made one sleep fewer than checks.
pub proof fn lemma_sleeps_follow_checks<P>(sleep: SleepDue<P>)
    requires
        sleep.inv(),
    ensures
        sleep.run().sleeps + 1 == sleep.run().checks,
{
}

/// Law: a sleep changes nothing of a run but the count of sleeps: the deadline, with the
/// latest reading it has seen, the checks made and the attempts left stay as they were;
/// and a check changes neither the deadline nor the sleeps.
pub proof fn lemma_sleeps_and_checks_keep_the_deadline(run: RunView)
    ensures
        run.after_sleep().deadline == run.deadline,
        run.after_sleep().sleeps == run.sleeps + 1,
        run.after_sleep().checks == run.checks,
        run.after_sleep().remaining == run.remaining,
        run.after_check().deadline == run.deadline,
        run.after_check().sleeps == run.sleeps,
        run.after_check().checks == run.checks + 1,
{
}

/// Law: a sleep ends before the deadline, so a reading after it that is earlier than the
/// deadline leaves time, and the run checks again; only a reading at or past the deadline
/// stops it.
pub proof fn lemma_reading_before_the_deadline_after_a_sleep_leaves_time<P>(
    sleep: SleepDue<P>,
    now: u64,
)
    requires
        sleep.inv(),
        sleep.run().deadline is Some,
    ensures
        now < sleep.run().deadline->0.at() <==> sleep.run().deadline->0.remaining_after(now) > 0,
{
}

/// Law: a run without a timeout never reads the clock.
pub proof fn lemma_clock_read_only_with_timeout<P>(read: ClockRead<P>)
    requires
        read.inv(),
    ensures
        read.run().timeout is Some,
{
}

/// Law: a sleep is never zero, never longer than the interval, and, with a deadline, never
/// ends after it, counting from the latest clock reading.
pub proof fn lemma_sleep_within_interval_and_deadline<P>(sleep: SleepDue<P>)
    requires
        sleep.inv(),
    ensures
        0 < sleep.delay() <= sleep.run().interval,
        sleep.run().deadline matches Some(d) ==> d.latest() + sleep.delay() <= d.at(),
{
}

/// Law: a clock reading earlier than one already seen gives no time back: the latest
/// reading never decreases, and the time left never grows from one reading to the next.
pub proof fn lemma_readings_never_restore_time(deadline: Deadline, first: u64, second: u64)
    ensures
        deadline.observed(first).latest() >= deadline.latest(),
        deadline.observed(first).at() == deadline.at(),
        deadline.observed(first).remaining_after(second) <= deadline.remaining_after(first),
{
}

/// Law: the deadline expires at equality: a reading at or after it leaves no time.
pub proof fn lemma_deadline_reached_leaves_no_time(deadline: Deadline, now: u64)
    ensures
        now >= deadline.at() ==> deadline.remaining_after(now) == 0,
{
}

/// Law: no step changes a run's configuration: the interval, the timeout and the attempt
/// limit a run starts with stay the same until it stops.
pub proof fn lemma_steps_keep_configuration(run: RunView, deadline: Deadline)
    ensures
        run.after_check().interval == run.interval && run.after_check().timeout == run.timeout
            && run.after_check().max_attempts == run.max_attempts,
        run.after_sleep().interval == run.interval && run.after_sleep().timeout == run.timeout
            && run.after_sleep().max_attempts == run.max_attempts,
        run.with_deadline(deadline).interval == run.interval && run.with_deadline(deadline).timeout
            == run.timeout && run.with_deadline(deadline).max_attempts == run.max_attempts,
{
}

} // verus!
