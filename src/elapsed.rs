use vstd::prelude::*;

verus! {

/// Nanoseconds in one millisecond.
pub const NANOS_PER_MILLI: u128 = 1_000_000;

/// A span of elapsed time, counted in whole nanoseconds.
#[derive(Clone, Copy, Debug, PartialEq, Eq, Structural)]
pub struct Elapsed {
    pub nanos: u128,
}

impl View for Elapsed {
    type V = nat;

    open spec fn view(&self) -> nat {
        self.nanos as nat
    }
}

/// The sum of two spans, held at the largest span that can be represented.
pub open spec fn sum_capped(a: nat, b: nat) -> nat {
    if a + b <= u128::MAX {
        a + b
    } else {
        u128::MAX as nat
    }
}

/// The nanosecond counts of an optional span.
pub open spec fn nanos_of(d: Option<Elapsed>) -> Option<nat> {
    match d {
        Some(e) => Some(e@),
        None => None,
    }
}

impl Elapsed {
    /// The empty span.
    pub fn zero() -> (r: Elapsed)
        ensures
            r@ == 0,
    {
        Elapsed { nanos: 0 }
    }

    /// The span of `nanos` nanoseconds.
    pub fn from_nanos(nanos: u128) -> (r: Elapsed)
        ensures
            r@ == nanos,
    {
        Elapsed { nanos }
    }

    /// The span of `millis` milliseconds.
    pub fn from_millis(millis: u64) -> (r: Elapsed)
        ensures
            r@ == millis * NANOS_PER_MILLI,
    {
        Elapsed { nanos: millis as u128 * NANOS_PER_MILLI }
    }

    /// Whole nanoseconds in the span.
    pub fn as_nanos(&self) -> (r: u128)
        ensures
            r == self@,
    {
        self.nanos
    }

    /// Whole milliseconds in the span, rounded down.
    pub fn as_millis(&self) -> (r: u128)
        ensures
            r == self@ / (NANOS_PER_MILLI as nat),
    {
        self.nanos / NANOS_PER_MILLI
    }

    /// The sum of two spans; a sum past the largest span stays at the largest.
    pub fn saturating_add(self, other: Elapsed) -> (r: Elapsed)
        ensures
            r@ == sum_capped(self@, other@),
    {
        Elapsed { nanos: self.nanos.saturating_add(other.nanos) }
    }
}

} // verus!
