//! Lengths of time, counted in whole nanoseconds.

use vstd::prelude::*;

verus! {

/// Nanoseconds in one second.
pub const NANOS_PER_SEC: u128 = 1_000_000_000;

/// Nanoseconds in one millisecond.
pub const NANOS_PER_MILLI: u128 = 1_000_000;

/// The longest span, in nanoseconds: `u64::MAX` seconds and 999,999,999
/// nanoseconds, which is also the longest `std::time::Duration`.
pub const MAX_NANOS: u128 = 18_446_744_073_709_551_615_999_999_999;

/// The nanoseconds in `secs` seconds and `subsec_nanos` nanoseconds.
pub open spec fn nanos_of(secs: u64, subsec_nanos: u32) -> nat {
    (secs * NANOS_PER_SEC + subsec_nanos) as nat
}

/// A length of time between zero and [`MAX_NANOS`] nanoseconds.
///
/// The view of a span is its length in nanoseconds.
#[derive(Clone, Copy, Debug, PartialEq, Eq, Structural)]
pub struct Span {
    nanos: u128,
}

impl View for Span {
    type V = nat;

    closed spec fn view(&self) -> nat {
        self.nanos as nat
    }
}

impl Span {
    /// No span is longer than [`MAX_NANOS`].
    #[verifier::type_invariant]
    pub open spec fn in_range(self) -> bool {
        self@ <= MAX_NANOS
    }

    /// Two spans of the same length are the same span.
    pub proof fn lemma_view_injective(a: Span, b: Span)
        requires
            a@ == b@,
        ensures
            a == b,
    {
    }

    /// The span of `secs` seconds and `subsec_nanos` nanoseconds, or `None`
    /// where that is longer than the longest span.
    pub fn new(secs: u64, subsec_nanos: u32) -> (span: Option<Span>)
        ensures
            match span {
                Some(span) => span@ == nanos_of(secs, subsec_nanos) <= MAX_NANOS,
                None => nanos_of(secs, subsec_nanos) > MAX_NANOS,
            },
    {
        let whole: u128 = secs as u128 * NANOS_PER_SEC;
        let nanos: u128 = whole + subsec_nanos as u128;
        if nanos <= MAX_NANOS {
            Some(Span { nanos })
        } else {
            None
        }
    }

    /// The empty span.
    pub fn zero() -> (span: Span)
        ensures
            span@ == 0,
    {
        Span { nanos: 0 }
    }

    /// The span of `secs` whole seconds.
    pub fn from_secs(secs: u64) -> (span: Span)
        ensures
            span@ == secs * NANOS_PER_SEC,
    {
        Span { nanos: secs as u128 * NANOS_PER_SEC }
    }

    /// The span of `millis` whole milliseconds.
    pub fn from_millis(millis: u64) -> (span: Span)
        ensures
            span@ == millis * NANOS_PER_MILLI,
    {
        Span { nanos: millis as u128 * NANOS_PER_MILLI }
    }

    /// The length in nanoseconds.
    pub fn as_nanos(&self) -> (nanos: u128)
        ensures
            nanos == self@,
            nanos <= MAX_NANOS,
    {
        proof {
            use_type_invariant(self);
        }
        self.nanos
    }

    /// The whole seconds in the span, rounded down.
    pub fn as_secs(&self) -> (secs: u64)
        ensures
            secs == self@ / (NANOS_PER_SEC as nat),
    {
        proof {
            use_type_invariant(self);
        }
        (self.nanos / NANOS_PER_SEC) as u64
    }

    /// The part of the span that is shorter than a second, in nanoseconds.
    pub fn subsec_nanos(&self) -> (nanos: u32)
        ensures
            nanos == self@ % (NANOS_PER_SEC as nat),
    {
        (self.nanos % NANOS_PER_SEC) as u32
    }

    /// Whether the span is empty.
    pub fn is_zero(&self) -> (zero: bool)
        ensures
            zero <==> self@ == 0,
    {
        self.nanos == 0
    }

    /// `self - rhs`, or the empty span where `rhs` is the longer one.
    pub fn saturating_sub(self, rhs: Span) -> (span: Span)
        ensures
            span@ == if self@ >= rhs@ { self@ - rhs@ } else { 0 },
    {
        proof {
            use_type_invariant(self);
        }
        if self.nanos >= rhs.nanos {
            Span { nanos: self.nanos - rhs.nanos }
        } else {
            Span { nanos: 0 }
        }
    }

    /// `self + rhs`, or the longest span where the sum is longer than that.
    pub fn saturating_add(self, rhs: Span) -> (span: Span)
        ensures
            span@ == if self@ + rhs@ <= MAX_NANOS { self@ + rhs@ } else { MAX_NANOS as nat },
    {
        proof {
            use_type_invariant(self);
            use_type_invariant(rhs);
        }
        let sum: u128 = self.nanos + rhs.nanos;
        if sum <= MAX_NANOS {
            Span { nanos: sum }
        } else {
            Span { nanos: MAX_NANOS }
        }
    }
}

} // verus!
