//! Verified building blocks for Restate services: a fixed-delay poller driven step by
//! step, the validation of its configuration, endpoint and handler configuration checks,
//! and what a journaled clock step records for a reading of the host clock.

pub mod clock;
pub mod config;
pub mod poll;
pub mod span;

pub use config::{Config, ConfigError, EndpointConfig, RetryPolicyOnMaxAttempts, SocketAddress};
pub use poll::{PollError, PollFailure, PollOutcome, Poller, PollerBuilder};
pub use span::Span;
