//! The monotonic clock.
//!
//! Everything in this module is taken on trust: the clock is tokio's, and
//! what it reads depends on when it is asked. The contracts below therefore
//! say only what holds of every reading.

use crate::span::NANOS_PER_SEC;
use tokio::time::Instant;
use vstd::prelude::*;

verus! {

/// tokio's `Instant`, one reading of the monotonic clock. It is opaque:
/// instants can be held, copied and compared for equality, and nothing is
/// known of what is inside one.
#[verifier::external_type_specification]
#[verifier::external_body]
pub struct ExInstant(tokio::time::Instant);

/// `tokio::time::Instant::now` reads the clock. Nothing is claimed of the
/// instant that it returns.
pub assume_specification[ tokio::time::Instant::now ]() -> (now: Instant)
;

/// The time that has passed since `start`, by `tokio::time::Instant::elapsed`,
/// as whole seconds and the nanoseconds of the unfinished second
/// (`Duration::as_secs` and `Duration::subsec_nanos`).
///
/// The reading depends on the clock, so the one claim is that the
/// nanoseconds stay below one second, as the standard library documents of
/// `subsec_nanos`.
#[verifier::external_body]
pub(crate) fn elapsed_since(start: &Instant) -> (parts: (u64, u32))
    ensures
        parts.1 < NANOS_PER_SEC,
{
    let passed = start.elapsed();
    (passed.as_secs(), passed.subsec_nanos())
}

} // verus!
