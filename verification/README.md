# restate_toolkit

Building blocks for services on the Restate Rust SDK, with their logic proved by Verus.

- `src/` is the verified library:
  - `poll`: the fixed-delay poller. `PollerBuilder::build` validates the configuration;
    a run is driven step by step (`Poller::start`, then the `PollAction` each step returns),
    and every decision (stop, read the clock, sleep how long, check again) is made and
    proved here, together with the laws of a run: attempt limits, sleeps between checks,
    no clock reads without a timeout, clipped sleeps, and deadlines that a backward clock
    cannot extend.
  - `config`: endpoint settings, delimited identity-key lists, identity keys added in order
    to the SDK's endpoint builder, and handler-override names checked against a service.
  - `clock`: the millisecond reading a journaled clock step records.
  - `span`: a nanosecond-precision length of time.
- `app/` holds what runs around it: the host clock read and journaled on the SDK contexts,
  the poll loop that performs a run's actions through a context, terminal error conversion
  (a handler writes `builder.build().map_err(terminal_error)?`), the shutdown signal, and
  the Serde configuration types with their SDK option adapters.
- `tests/` exercises the library, including scripted poll runs.
