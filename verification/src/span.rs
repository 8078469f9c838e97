//! A span of time with nanosecond resolution.
//!
//! A [`Span`] keeps whole seconds and the nanoseconds of the unfinished second
//! apart, the way the standard `Duration` does, so that the two convert into
//! each other without loss. Its view is the total number of nanoseconds.

use vstd::prelude::*;

verus! {

/// Nanoseconds in one second.
pub const NANOS_PER_SEC: u32 = 1_000_000_000;

/// Nanoseconds in one millisecond.
pub const NANOS_PER_MILLI: u32 = 1_000_000;

/// Milliseconds in one second.
pub const MILLIS_PER_SEC: u64 = 1_000;

/// A non-negative length of time.
#[derive(Clone, Copy, Debug, PartialEq, Eq, Structural)]
pub struct Span {
    secs: u64,
    nanos: u32,
}

impl View for Span {
    type V = nat;

    /// The length of the span in nanoseconds.
    closed spec fn view(&self) -> nat {
        (self.secs as nat) * (NANOS_PER_SEC as nat) + (self.nanos as nat)
    }
}

impl Span {
    /// The nanoseconds of the unfinished second stay below one second.
    #[verifier::type_invariant]
    pub closed spec fn wf(&self) -> bool {
        self.nanos < NANOS_PER_SEC
    }

    /// The span of no time at all.
    pub fn zero() -> (s: Span)
        ensures
            s@ == 0,
            s.wf(),
    {
        Span { secs: 0, nanos: 0 }
    }

    /// The span of `secs` whole seconds and `subsec_nanos` nanoseconds, if
    /// `subsec_nanos` is less than one second.
    pub fn new(secs: u64, subsec_nanos: u32) -> (r: Option<Span>)
        ensures
            r is Some <==> subsec_nanos < NANOS_PER_SEC,
            r matches Some(s) ==> s.wf() && s@ == secs * NANOS_PER_SEC + subsec_nanos,
    {
        if subsec_nanos < NANOS_PER_SEC {
            Some(Span { secs, nanos: subsec_nanos })
        } else {
            None
        }
    }

    /// The span of `secs` whole seconds and `subsec_nanos` nanoseconds.
    pub(crate) fn from_parts(secs: u64, subsec_nanos: u32) -> (s: Span)
        requires
            subsec_nanos < NANOS_PER_SEC,
        ensures
            s.wf(),
            s@ == secs * NANOS_PER_SEC + subsec_nanos,
    {
        Span { secs, nanos: subsec_nanos }
    }

    /// The span of `secs` whole seconds.
    pub fn from_secs(secs: u64) -> (s: Span)
        ensures
            s.wf(),
            s@ == secs * NANOS_PER_SEC,
    {
        Span { secs, nanos: 0 }
    }

    /// The span of `millis` whole milliseconds.
    pub fn from_millis(millis: u64) -> (s: Span)
        ensures
            s.wf(),
            s@ == millis * NANOS_PER_MILLI,
    {
        let secs: u64 = millis / MILLIS_PER_SEC;
        let rest: u64 = millis % MILLIS_PER_SEC;
        let nanos: u32 = (rest as u32) * NANOS_PER_MILLI;
        assert(secs * 1_000_000_000 + rest * 1_000_000 == millis * 1_000_000) by {
            assert(millis == 1_000 * secs + rest);
        }
        Span { secs, nanos }
    }

    /// The whole seconds in the span.
    pub fn as_secs(&self) -> (secs: u64)
        ensures
            secs == self@ / (NANOS_PER_SEC as nat),
    {
        proof {
            use_type_invariant(self);
            vstd::arithmetic::div_mod::lemma_fundamental_div_mod_converse(
                self@ as int,
                NANOS_PER_SEC as int,
                self.secs as int,
                self.nanos as int,
            );
        }
        self.secs
    }

    /// The nanoseconds of the unfinished second: what is left of the span
    /// when its whole seconds are taken away.
    pub fn subsec_nanos(&self) -> (nanos: u32)
        ensures
            nanos == self@ % (NANOS_PER_SEC as nat),
            nanos < NANOS_PER_SEC,
    {
        proof {
            use_type_invariant(self);
            vstd::arithmetic::div_mod::lemma_fundamental_div_mod_converse(
                self@ as int,
                NANOS_PER_SEC as int,
                self.secs as int,
                self.nanos as int,
            );
        }
        self.nanos
    }

    /// The whole milliseconds in the span.
    pub fn as_millis(&self) -> (millis: u128)
        ensures
            millis == self@ / (NANOS_PER_MILLI as nat),
    {
        let sub: u32 = self.nanos / NANOS_PER_MILLI;
        let rest: u32 = self.nanos % NANOS_PER_MILLI;
        let whole: u128 = (self.secs as u128) * (MILLIS_PER_SEC as u128);
        proof {
            let q: int = self.secs * 1_000 + sub;
            assert(self@ == q * 1_000_000 + rest) by {
                assert(self.nanos == 1_000_000 * sub + rest);
            }
            vstd::arithmetic::div_mod::lemma_fundamental_div_mod_converse(
                self@ as int,
                NANOS_PER_MILLI as int,
                q,
                rest as int,
            );
        }
        whole + (sub as u128)
    }

    /// The length of the span in nanoseconds.
    pub fn as_nanos(&self) -> (nanos: u128)
        ensures
            nanos == self@,
    {
        let secs: u128 = self.secs as u128;
        assert(secs * 1_000_000_000 <= 0xffff_ffff_ffff_ffff * 1_000_000_000) by (nonlinear_arith)
            requires
                secs <= 0xffff_ffff_ffff_ffff,
        ;
        secs * (NANOS_PER_SEC as u128) + (self.nanos as u128)
    }
}

/// Two well-formed spans of the same length are the same span: the view loses
/// nothing.
pub proof fn lemma_view_injective(a: Span, b: Span)
    requires
        a.wf(),
        b.wf(),
        a@ == b@,
    ensures
        a == b,
{
    vstd::arithmetic::div_mod::lemma_fundamental_div_mod_converse(
        a@ as int,
        NANOS_PER_SEC as int,
        a.secs as int,
        a.nanos as int,
    );
    vstd::arithmetic::div_mod::lemma_fundamental_div_mod_converse(
        b@ as int,
        NANOS_PER_SEC as int,
        b.secs as int,
        b.nanos as int,
    );
}

} // verus!
