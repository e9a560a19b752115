//! A polling timeout on the monotonic clock.
//!
//! `Timeout` records a span and the instant at which it runs out, and answers
//! whether that instant has passed and how much time is left. Each query
//! comes in two forms: one that reads the clock (`expired`, `remaining_ms`)
//! and one that takes the clock reading as an argument (`expired_at`,
//! `remaining_ms_at`), whose result is stated exactly.
pub mod clock;
pub mod laws;
pub mod timeout;

pub use timeout::{Timeout, TimeoutView};
