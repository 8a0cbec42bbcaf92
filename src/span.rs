use vstd::prelude::*;

verus! {

pub const NANOS_PER_SEC: u32 = 1_000_000_000;

/// A non-negative length of time: whole seconds and the nanoseconds below one second.
#[derive(Clone, Copy, Debug, PartialEq, Eq, Structural, Hash)]
pub struct Span {
    pub secs: u64,
    pub nanos: u32,
}

impl Span {
    pub open spec fn wf(self) -> bool {
        self.nanos < NANOS_PER_SEC
    }

    /// The length in nanoseconds.
    pub open spec fn total(self) -> int {
        self.secs * 1_000_000_000 + self.nanos
    }

    /// A span of `secs` seconds and `nanos` nanoseconds.
    pub fn new(secs: u64, nanos: u32) -> (r: Span)
        requires
            nanos < NANOS_PER_SEC,
        ensures
            r.secs == secs && r.nanos == nanos,
            r.wf(),
    {
        Span { secs, nanos }
    }

    pub fn zero() -> (r: Span)
        ensures
            r.total() == 0,
            r.wf(),
    {
        Span { secs: 0, nanos: 0 }
    }

    pub fn from_secs(secs: u64) -> (r: Span)
        ensures
            r.total() == secs * 1_000_000_000,
            r.secs == secs && r.nanos == 0,
            r.wf(),
    {
        Span { secs, nanos: 0 }
    }

    pub fn from_millis(millis: u64) -> (r: Span)
        ensures
            r.total() == millis * 1_000_000,
            r.wf(),
    {
        let secs: u64 = millis / 1000;
        let rest: u64 = millis % 1000;
        assert(rest * 1_000_000 < 1_000_000_000) by (nonlinear_arith)
            requires rest < 1000;
        let nanos: u32 = (rest * 1_000_000) as u32;
        assert(secs * 1_000_000_000 + rest * 1_000_000 == millis * 1_000_000) by (nonlinear_arith)
            requires secs == millis / 1000, rest == millis % 1000;
        Span { secs, nanos }
    }

    pub fn is_zero(&self) -> (r: bool)
        requires
            self.wf(),
        ensures
            r == (self.total() == 0),
    {
        self.secs == 0 && self.nanos == 0
    }

    /// `self < other` as lengths of time.
    pub fn lt(&self, other: &Span) -> (r: bool)
        requires
            self.wf(),
            other.wf(),
        ensures
            r == (self.total() < other.total()),
    {
        proof {
            lemma_total_order(*self, *other);
        }
        self.secs < other.secs || (self.secs == other.secs && self.nanos < other.nanos)
    }

    /// The length in nanoseconds, as a machine integer.
    pub fn as_nanos(&self) -> (r: u128)
        ensures
            r == self.total(),
    {
        assert(self.secs * 1_000_000_000 <= 0xffff_ffff_ffff_ffff * 1_000_000_000)
            by (nonlinear_arith);
        self.secs as u128 * 1_000_000_000 + self.nanos as u128
    }

    /// Two thirds of the span, rounded down to the nanosecond.
    pub fn two_thirds(&self) -> (r: Span)
        requires
            self.wf(),
        ensures
            r.total() == (2 * self.total()) / 3,
            r.wf(),
    {
        let t: u128 = self.as_nanos();
        let q: u128 = (2 * t) / 3;
        let secs_part: u128 = q / 1_000_000_000;
        let nanos_part: u128 = q % 1_000_000_000;
        assert(q <= t) by (nonlinear_arith)
            requires q == (2 * t) / 3, t >= 0;
        assert(secs_part * 1_000_000_000 <= t) by (nonlinear_arith)
            requires secs_part == q / 1_000_000_000, q <= t;
        assert(secs_part <= self.secs) by (nonlinear_arith)
            requires
                secs_part * 1_000_000_000 <= t,
                t == self.secs * 1_000_000_000 + self.nanos,
                self.nanos < 1_000_000_000,
        ;
        Span { secs: secs_part as u64, nanos: nanos_part as u32 }
    }
}

proof fn lemma_total_order(a: Span, b: Span)
    requires
        a.wf(),
        b.wf(),
    ensures
        a.total() < b.total() <==> (a.secs < b.secs || (a.secs == b.secs && a.nanos < b.nanos)),
{
    if a.secs < b.secs {
        assert(a.total() < b.total()) by (nonlinear_arith)
            requires a.secs < b.secs, a.nanos < 1_000_000_000, a.total() == a.secs * 1_000_000_000 + a.nanos, b.total() == b.secs * 1_000_000_000 + b.nanos;
    } else if a.secs > b.secs {
        assert(a.total() > b.total()) by (nonlinear_arith)
            requires a.secs > b.secs, b.nanos < 1_000_000_000, a.total() == a.secs * 1_000_000_000 + a.nanos, b.total() == b.secs * 1_000_000_000 + b.nanos;
    }
}

} // verus!
