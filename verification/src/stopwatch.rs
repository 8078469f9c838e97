//! The stopwatch and its transitions.

use crate::clock::elapsed_since;
use crate::decimal::{decimal, to_decimal};
use crate::span::{Span, NANOS_PER_MILLI};
use tokio::time::Instant;
use vstd::prelude::*;

verus! {

/// A stopwatch: it is running exactly while it holds a start instant.
#[derive(Clone, Copy)]
pub struct Stopwatch {
    /// When the running interval began; `None` while stopped.
    start_time: Option<Instant>,
    /// When the last split of the running interval was taken.
    last_split: Option<Instant>,
    /// The last captured measure; zero after a start or a reset.
    elapsed: Span,
}

/// What a stopwatch holds, with the elapsed time as a number of nanoseconds.
pub struct StopwatchView {
    pub start_time: Option<Instant>,
    pub last_split: Option<Instant>,
    pub elapsed: nat,
}

impl StopwatchView {
    /// The stopped stopwatch that has measured nothing.
    pub open spec fn zeroed() -> StopwatchView {
        StopwatchView { start_time: None, last_split: None, elapsed: 0 }
    }

    /// A stopwatch is running exactly while it holds a start instant.
    pub open spec fn is_running(self) -> bool {
        self.start_time is Some
    }

    /// What every stopwatch that the operations can reach satisfies: a split
    /// exists only in a running interval, and a running interval without a
    /// split has measured nothing yet.
    pub open spec fn wf(self) -> bool {
        &&& self.last_split is Some ==> self.start_time is Some
        &&& self.start_time is Some && self.last_split is None ==> self.elapsed == 0
    }

    /// The stopwatch after a start at `now`: a fresh interval, whatever was
    /// held before.
    pub open spec fn started(self, now: Instant) -> StopwatchView {
        StopwatchView { start_time: Some(now), last_split: None, elapsed: 0 }
    }

    /// The stopwatch after a stop at which `measured` nanoseconds had passed
    /// since the start. A stopped stopwatch stays as it is.
    pub open spec fn stopped(self, measured: nat) -> StopwatchView {
        if self.is_running() {
            StopwatchView { start_time: None, last_split: None, elapsed: measured }
        } else {
            self
        }
    }

    /// What that stop reports: the measure, or zero if nothing was running.
    pub open spec fn stop_reports(self, measured: nat) -> nat {
        if self.is_running() {
            measured
        } else {
            0
        }
    }

    /// The stopwatch after a split taken at `now`, at which `measured`
    /// nanoseconds had passed since the start. The interval goes on from the
    /// same start; a stopped stopwatch stays as it is.
    pub open spec fn split(self, now: Instant, measured: nat) -> StopwatchView {
        if self.is_running() {
            StopwatchView { start_time: self.start_time, last_split: Some(now), elapsed: measured }
        } else {
            self
        }
    }

    /// The stopwatch after a reset followed by a start at `now`.
    pub open spec fn restarted(self, now: Instant) -> StopwatchView {
        StopwatchView::zeroed().started(now)
    }

    /// The stopwatch as text: the whole milliseconds of the stored measure
    /// in decimal notation, with `ms` right behind them.
    pub open spec fn rendered(self) -> Seq<char> {
        decimal(self.elapsed / (NANOS_PER_MILLI as nat)) + seq!['m', 's']
    }
}

impl View for Stopwatch {
    type V = StopwatchView;

    closed spec fn view(&self) -> StopwatchView {
        StopwatchView {
            start_time: self.start_time,
            last_split: self.last_split,
            elapsed: self.elapsed@,
        }
    }
}

impl Default for Stopwatch {
    /// The stopped stopwatch that has measured nothing.
    fn default() -> (sw: Stopwatch)
        ensures
            sw@ == StopwatchView::zeroed(),
            sw@.wf(),
    {
        Stopwatch { start_time: None, last_split: None, elapsed: Span::zero() }
    }
}

impl Stopwatch {
    /// A stopped stopwatch that has measured nothing.
    pub fn new() -> (sw: Stopwatch)
        ensures
            sw@ == StopwatchView::zeroed(),
            sw@.wf(),
    {
        Stopwatch::default()
    }

    /// Begins a fresh interval at `now`, whether or not one was running:
    /// the split and the measure of before are dropped.
    pub fn start_at(&mut self, now: Instant)
        ensures
            final(self)@ == old(self)@.started(now),
            final(self)@.wf(),
    {
        self.start_time = Some(now);
        self.last_split = None;
        self.elapsed = Span::zero();
    }

    /// Begins a fresh interval at the clock's present reading, whether or
    /// not one was running: the split and the measure of before are dropped.
    pub fn start(&mut self)
        ensures
            final(self)@.is_running(),
            final(self)@.last_split is None,
            final(self)@.elapsed == 0,
            final(self)@.wf(),
    {
        self.start_at(Instant::now());
    }

    /// A stopwatch that is running from the clock's present reading.
    pub fn start_new() -> (sw: Stopwatch)
        ensures
            sw@.is_running(),
            sw@.last_split is None,
            sw@.elapsed == 0,
            sw@.wf(),
    {
        let mut sw = Stopwatch::new();
        sw.start();
        sw
    }

    /// Ends the running interval with `measured` as its length, and reports
    /// it. On a stopped stopwatch nothing changes and zero is reported.
    pub fn stop_after(&mut self, measured: Span) -> (reported: Span)
        ensures
            final(self)@ == old(self)@.stopped(measured@),
            reported@ == old(self)@.stop_reports(measured@),
            old(self)@.is_running() ==> reported == measured,
            old(self)@.wf() ==> final(self)@.wf(),
    {
        match self.start_time {
            Some(_) => {
                self.elapsed = measured;
                self.start_time = None;
                self.last_split = None;
                self.elapsed
            },
            None => Span::zero(),
        }
    }

    /// Ends the running interval, keeps the time that the clock says has
    /// passed since its start, and reports it. On a stopped stopwatch
    /// nothing changes and zero is reported.
    pub fn stop(&mut self) -> (reported: Span)
        ensures
            final(self)@ == old(self)@.stopped(reported@),
            !old(self)@.is_running() ==> reported@ == 0,
            old(self)@.wf() ==> final(self)@.wf(),
    {
        match self.start_time {
            Some(t1) => {
                let (secs, nanos) = elapsed_since(&t1);
                self.stop_after(Span::from_parts(secs, nanos))
            },
            None => Span::zero(),
        }
    }

    /// Brings the stopwatch back to the stopped state that has measured
    /// nothing.
    pub fn reset(&mut self)
        ensures
            final(self)@ == StopwatchView::zeroed(),
            final(self)@.wf(),
    {
        *self = Stopwatch::default();
    }

    /// Resets the stopwatch and begins a fresh interval at the clock's
    /// present reading.
    pub fn restart(&mut self)
        ensures
            final(self)@.is_running(),
            final(self)@.last_split is None,
            final(self)@.elapsed == 0,
            final(self)@.wf(),
    {
        self.reset();
        self.start();
    }

    /// Takes a split at `now` with `measured` as the time since the start:
    /// both are kept, the interval goes on, and the measure is handed back.
    /// On a stopped stopwatch nothing changes and nothing is handed back.
    pub fn split_at(&mut self, now: Instant, measured: Span) -> (taken: Option<Span>)
        ensures
            final(self)@ == old(self)@.split(now, measured@),
            taken == if old(self)@.is_running() {
                Some(measured)
            } else {
                None::<Span>
            },
            old(self)@.wf() ==> final(self)@.wf(),
    {
        match self.start_time {
            Some(_) => {
                self.last_split = Some(now);
                self.elapsed = measured;
                Some(self.elapsed)
            },
            None => None,
        }
    }

    /// Takes a split: keeps the clock's present reading and the time that
    /// the clock says has passed since the start, and hands the latter back;
    /// the interval goes on. On a stopped stopwatch nothing changes and
    /// nothing is handed back.
    pub fn split(&mut self) -> (taken: Option<Span>)
        ensures
            taken is Some <==> old(self)@.is_running(),
            taken is None ==> final(self)@ == old(self)@,
            taken matches Some(d) ==> {
                &&& final(self)@.start_time == old(self)@.start_time
                &&& final(self)@.last_split is Some
                &&& final(self)@.elapsed == d@
            },
            old(self)@.wf() ==> final(self)@.wf(),
    {
        match self.start_time {
            Some(t1) => {
                let now = Instant::now();
                let (secs, nanos) = elapsed_since(&t1);
                self.split_at(now, Span::from_parts(secs, nanos))
            },
            None => None,
        }
    }

    /// The stopwatch as text: the whole milliseconds of the stored measure
    /// in decimal notation, with `ms` right behind them. The measure is the
    /// stored one, which a stop or a split refreshes and nothing else does.
    pub fn to_string(&self) -> (text: String)
        ensures
            text@ == self@.rendered(),
    {
        let mut text = to_decimal(self.elapsed.as_millis());
        proof {
            reveal_strlit("ms");
            assert("ms"@ =~= seq!['m', 's']);
        }
        text.append("ms");
        text
    }

    /// The start of the running interval, if one is running.
    pub fn start_time(&self) -> (t: Option<Instant>)
        ensures
            t == self@.start_time,
    {
        self.start_time
    }

    /// When the last split of the running interval was taken, if any was.
    pub fn last_split(&self) -> (t: Option<Instant>)
        ensures
            t == self@.last_split,
    {
        self.last_split
    }

    /// The measure as it is stored: refreshed by a stop or a split only.
    pub fn elapsed(&self) -> (d: Span)
        ensures
            d@ == self@.elapsed,
    {
        self.elapsed
    }
}

} // verus!
