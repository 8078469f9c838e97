//! What holds of the stopwatch across several operations.
//!
//! Each law is stated over [`StopwatchView`], the view in which the
//! operations' own contracts are written, and so holds of every run of the
//! executable operations, whatever the clock reads.

use crate::stopwatch::StopwatchView;
use tokio::time::Instant;
use vstd::prelude::*;

verus! {

/// No operation leads out of the well-formed stopwatches: a split exists
/// only in a running interval, and a running interval without a split has
/// measured nothing.
pub proof fn lemma_operations_keep_wf(v: StopwatchView, now: Instant, measured: nat)
    requires
        v.wf(),
    ensures
        StopwatchView::zeroed().wf(),
        v.started(now).wf(),
        v.stopped(measured).wf(),
        v.split(now, measured).wf(),
        v.restarted(now).wf(),
{
}

/// A start forgets what came before: from any two stopwatches, running or
/// not, a start at the same instant leads to the same running stopwatch,
/// with no split and nothing measured.
pub proof fn lemma_start_forgets(v: StopwatchView, w: StopwatchView, now: Instant)
    ensures
        v.started(now) == w.started(now),
        v.started(now).is_running(),
        v.started(now).start_time == Some(now),
        v.started(now).last_split is None,
        v.started(now).elapsed == 0,
{
}

/// A restart is a start: the reset before it changes nothing of the outcome.
pub proof fn lemma_restart_is_start(v: StopwatchView, now: Instant)
    ensures
        v.restarted(now) == v.started(now),
{
}

/// After a restart, a stop keeps the measure of the new interval alone:
/// neither the split nor the measure of before the restart is left in it.
pub proof fn lemma_stop_after_restart(v: StopwatchView, now: Instant, measured: nat)
    ensures
        v.restarted(now).stopped(measured) == (StopwatchView {
            start_time: None,
            last_split: None,
            elapsed: measured,
        }),
        v.restarted(now).stop_reports(measured) == measured,
{
}

/// A stop on a stopped stopwatch is void: it reports zero and changes
/// nothing. Hence of two stops in a row only the first one counts.
pub proof fn lemma_stop_twice(v: StopwatchView, first: nat, second: nat)
    ensures
        !v.is_running() ==> v.stopped(first) == v && v.stop_reports(first) == 0,
        !v.stopped(first).is_running(),
        v.stopped(first).stopped(second) == v.stopped(first),
        v.stopped(first).stop_reports(second) == 0,
{
}

/// A split on a stopped stopwatch is void, and a split never stops or
/// starts a stopwatch.
pub proof fn lemma_split_keeps_running(v: StopwatchView, now: Instant, measured: nat)
    ensures
        !v.is_running() ==> v.split(now, measured) == v,
        v.split(now, measured).is_running() == v.is_running(),
        v.split(now, measured).start_time == v.start_time,
{
}

/// Splits are measured from the start of the interval, not from one
/// another. Of two splits in a row the later one alone is left, the start
/// is the one of before, and the stored measure has not gone down if the
/// later reading is not below the earlier.
pub proof fn lemma_split_twice(
    v: StopwatchView,
    first_at: Instant,
    first: nat,
    second_at: Instant,
    second: nat,
)
    requires
        v.is_running(),
    ensures
        v.split(first_at, first).split(second_at, second) == v.split(second_at, second),
        v.split(first_at, first).split(second_at, second).start_time == v.start_time,
        v.split(first_at, first).split(second_at, second).last_split == Some(second_at),
        v.split(first_at, first).split(second_at, second).elapsed == second,
        first <= second ==> v.split(first_at, first).elapsed <= v.split(first_at, first).split(
            second_at,
            second,
        ).elapsed,
{
}

/// A stop ends the interval with all its splits: whatever splits were taken,
/// the stop leaves no split, and its measure alone.
pub proof fn lemma_stop_after_split(v: StopwatchView, at: Instant, split: nat, measured: nat)
    requires
        v.is_running(),
    ensures
        v.split(at, split).stopped(measured) == v.stopped(measured),
        v.split(at, split).stop_reports(measured) == measured,
        v.stopped(measured).last_split is None,
        v.stopped(measured).elapsed == measured,
{
}

} // verus!
