//! Lengths of time, and the wall-clock budget of a search.

use vstd::prelude::*;

verus! {

/// Nanoseconds in one second.
pub const NANOS_PER_SEC: u32 = 1_000_000_000u32;

/// A length of time: whole seconds and the nanoseconds beyond them.
#[derive(Clone, Copy, Debug, PartialEq, Eq, Structural)]
pub struct Span {
    secs: u64,
    nanos: u32,
}

impl Span {
    /// The fractional part stays below one second.
    #[verifier::type_invariant]
    pub closed spec fn wf(self) -> bool {
        self.nanos < NANOS_PER_SEC
    }

    /// The length in nanoseconds.
    pub closed spec fn as_nanos(self) -> nat {
        (self.secs * NANOS_PER_SEC + self.nanos) as nat
    }

    /// A span from seconds and nanoseconds; `None` where the nanoseconds
    /// reach a whole second.
    pub fn new(secs: u64, nanos: u32) -> (r: Option<Span>)
        ensures
            r is Some <==> nanos < NANOS_PER_SEC,
            r is Some ==> r->0.as_nanos() == secs * NANOS_PER_SEC + nanos,
    {
        if nanos < NANOS_PER_SEC {
            Some(Span { secs, nanos })
        } else {
            None
        }
    }

    /// A span of whole seconds.
    pub fn from_secs(secs: u64) -> (r: Span)
        ensures
            r.as_nanos() == secs * NANOS_PER_SEC,
    {
        Span { secs, nanos: 0 }
    }

    /// A span of milliseconds.
    pub fn from_millis(millis: u64) -> (r: Span)
        ensures
            r.as_nanos() == millis * 1_000_000,
    {
        let secs: u64 = millis / 1000;
        let rest: u64 = millis % 1000;
        assert(rest * 1_000_000 < 1_000_000_000) by (nonlinear_arith)
            requires
                rest < 1000,
        ;
        let nanos: u64 = rest * 1_000_000;
        assert(secs * 1_000_000_000 + rest * 1_000_000 == millis * 1_000_000) by (nonlinear_arith)
            requires
                secs == millis / 1000,
                rest == millis % 1000,
        ;
        Span { secs, nanos: nanos as u32 }
    }

    /// The whole seconds.
    pub fn secs(&self) -> (r: u64)
        ensures
            r == self.as_nanos() / (NANOS_PER_SEC as nat),
    {
        proof {
            use_type_invariant(self);
            let s = self.secs as int;
            let n = self.nanos as int;
            assert((s * 1_000_000_000 + n) / 1_000_000_000 == s) by (nonlinear_arith)
                requires
                    0 <= n < 1_000_000_000,
            ;
        }
        self.secs
    }

    /// The nanoseconds beyond the whole seconds.
    pub fn subsec_nanos(&self) -> (r: u32)
        ensures
            r == self.as_nanos() % (NANOS_PER_SEC as nat),
    {
        proof {
            use_type_invariant(self);
            let s = self.secs as int;
            let n = self.nanos as int;
            assert((s * 1_000_000_000 + n) % 1_000_000_000 == n) by (nonlinear_arith)
                requires
                    0 <= n < 1_000_000_000,
            ;
        }
        self.nanos
    }

    /// Whether `self` is strictly shorter than `other`.
    pub fn shorter_than(&self, other: &Span) -> (r: bool)
        ensures
            r == (self.as_nanos() < other.as_nanos()),
    {
        proof {
            use_type_invariant(self);
            use_type_invariant(other);
            if self.secs < other.secs {
                lemma_order(*self, *other);
            } else if other.secs < self.secs {
                lemma_order(*other, *self);
            }
        }
        self.secs < other.secs || (self.secs == other.secs && self.nanos < other.nanos)
    }
}

/// Fewer whole seconds mean a shorter span, whatever the fractions.
proof fn lemma_order(a: Span, b: Span)
    requires
        a.wf(),
        b.wf(),
        a.secs < b.secs,
    ensures
        a.as_nanos() < b.as_nanos(),
{
    let x = a.secs as int;
    let y = b.secs as int;
    assert(x * 1_000_000_000 + 1_000_000_000 <= y * 1_000_000_000) by (nonlinear_arith)
        requires
            x < y,
    ;
}

/// The search goes on while the time elapsed since its start is strictly
/// less than the budget.
pub open spec fn within_budget(elapsed: Span, budget: Span) -> bool {
    elapsed.as_nanos() < budget.as_nanos()
}

/// Two spans of equal length are the same span.
pub proof fn lemma_span_by_length(a: Span, b: Span)
    requires
        a.wf(),
        b.wf(),
        a.as_nanos() == b.as_nanos(),
    ensures
        a == b,
{
    if a.secs < b.secs {
        lemma_order(a, b);
    } else if b.secs < a.secs {
        lemma_order(b, a);
    }
}

} // verus!
