//! Spans of time, held as whole seconds and a sub-second count of nanoseconds.
use vstd::prelude::*;

verus! {

/// Nanoseconds in one second.
pub const NANOS_PER_SEC: u32 = 1_000_000_000;

/// A span of time: `secs` whole seconds and `nanos` further nanoseconds.
#[derive(Clone, Copy, Debug, PartialEq, Eq, Structural)]
pub struct TimeSpan {
    secs: u64,
    nanos: u32,
}

impl View for TimeSpan {
    type V = nat;

    /// The span in nanoseconds.
    closed spec fn view(&self) -> nat {
        (self.secs * 1_000_000_000 + self.nanos) as nat
    }
}

impl TimeSpan {
    #[verifier::type_invariant]
    spec fn wf(self) -> bool {
        self.nanos < 1_000_000_000
    }

    /// The span of `secs` seconds and `nanos` nanoseconds.
    pub fn new(secs: u64, nanos: u32) -> (t: TimeSpan)
        requires
            nanos < NANOS_PER_SEC,
        ensures
            t@ == secs * 1_000_000_000 + nanos,
            t.as_secs_spec() == secs,
            t.subsec_nanos_spec() == nanos,
    {
        TimeSpan { secs, nanos }
    }

    /// The span of `ms` milliseconds.
    pub fn from_millis(ms: u64) -> (t: TimeSpan)
        ensures
            t@ == ms * 1_000_000,
    {
        let secs: u64 = ms / 1000;
        let rest: u64 = ms % 1000;
        assert(rest * 1_000_000 < 1_000_000_000) by (nonlinear_arith)
            requires
                rest < 1000,
        ;
        let nanos: u32 = (rest * 1_000_000) as u32;
        assert(secs * 1_000_000_000 + rest * 1_000_000 == ms * 1_000_000) by (nonlinear_arith)
            requires
                secs == ms / 1000,
                rest == ms % 1000,
        ;
        TimeSpan { secs, nanos }
    }

    /// The span of `secs` seconds.
    pub fn from_secs(secs: u64) -> (t: TimeSpan)
        ensures
            t@ == secs * 1_000_000_000,
    {
        TimeSpan { secs, nanos: 0 }
    }

    pub closed spec fn as_secs_spec(&self) -> nat {
        self.secs as nat
    }

    pub closed spec fn subsec_nanos_spec(&self) -> nat {
        self.nanos as nat
    }

    /// The whole seconds of the span.
    pub fn as_secs(&self) -> (s: u64)
        ensures
            s == self.as_secs_spec(),
            s == self@ / 1_000_000_000,
    {
        proof {
            use_type_invariant(self);
            lemma_split_nanos(self.secs as nat, self.nanos as nat);
        }
        self.secs
    }

    /// The nanoseconds beyond the whole seconds of the span.
    pub fn subsec_nanos(&self) -> (n: u32)
        ensures
            n == self.subsec_nanos_spec(),
            n == self@ % 1_000_000_000,
            n < NANOS_PER_SEC,
    {
        proof {
            use_type_invariant(self);
            lemma_split_nanos(self.secs as nat, self.nanos as nat);
        }
        self.nanos
    }

    /// Whether this span is strictly shorter than `other`.
    pub fn shorter_than(&self, other: &TimeSpan) -> (b: bool)
        ensures
            b == (self@ < other@),
    {
        proof {
            use_type_invariant(self);
            use_type_invariant(other);
            lemma_split_nanos(self.secs as nat, self.nanos as nat);
            lemma_split_nanos(other.secs as nat, other.nanos as nat);
        }
        self.secs < other.secs || (self.secs == other.secs && self.nanos < other.nanos)
    }
}

proof fn lemma_split_nanos(secs: nat, nanos: nat)
    requires
        nanos < 1_000_000_000,
    ensures
        (secs * 1_000_000_000 + nanos) / 1_000_000_000 == secs,
        (secs * 1_000_000_000 + nanos) % 1_000_000_000 == nanos,
{
    vstd::arithmetic::div_mod::lemma_fundamental_div_mod_converse(
        (secs * 1_000_000_000 + nanos) as int,
        1_000_000_000,
        secs as int,
        nanos as int,
    );
}

} // verus!
