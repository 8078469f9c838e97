//! A stopwatch over a monotonic clock, with its behaviour stated in contracts.
//!
//! The stopwatch records a start instant, can be stopped to capture the time
//! that has passed, can take splits without stopping, and can be reset or
//! restarted. Every transition is specified over a mathematical view of the
//! stopwatch; the clock itself is the only part that is taken on trust.

pub mod clock;
pub mod decimal;
pub mod laws;
pub mod span;
pub mod stopwatch;

pub use span::Span;
pub use stopwatch::{Stopwatch, StopwatchView};
