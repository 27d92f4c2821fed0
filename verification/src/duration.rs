//! Spans of time, to the nanosecond.

use vstd::prelude::*;

verus! {

/// A span of time: whole nanoseconds, at most `u64::MAX` seconds and 999 999 999 nanoseconds.
#[derive(Debug, Clone, Copy, PartialEq, Eq, PartialOrd, Ord, Structural)]
pub struct Duration {
    nanos: u128,
}

/// The longest span, in nanoseconds.
pub open spec fn longest() -> nat {
    u64::MAX as nat * 1_000_000_000 + 999_999_999
}

impl Duration {
    /// The span in nanoseconds.
    pub closed spec fn nanos(self) -> nat {
        self.nanos as nat
    }

    /// Every span is at most the longest.
    #[verifier::type_invariant]
    pub open spec fn valid(self) -> bool {
        self.nanos() <= longest()
    }

    /// No time at all.
    pub fn zero() -> (d: Self)
        ensures
            d.nanos() == 0,
    {
        Duration { nanos: 0 }
    }

    /// `secs` seconds.
    pub fn from_secs(secs: u64) -> (d: Self)
        ensures
            d.nanos() == secs as nat * 1_000_000_000,
    {
        Duration { nanos: secs as u128 * 1_000_000_000 }
    }

    /// `millis` milliseconds.
    pub fn from_millis(millis: u64) -> (d: Self)
        ensures
            d.nanos() == millis as nat * 1_000_000,
    {
        Duration { nanos: millis as u128 * 1_000_000 }
    }

    /// `nanos` nanoseconds.
    pub fn from_nanos(nanos: u64) -> (d: Self)
        ensures
            d.nanos() == nanos,
    {
        Duration { nanos: nanos as u128 }
    }

    /// `secs` seconds and `nanos` nanoseconds.
    pub fn from_parts(secs: u64, nanos: u32) -> (d: Self)
        requires
            nanos < 1_000_000_000,
        ensures
            d.nanos() == secs as nat * 1_000_000_000 + nanos as nat,
    {
        Duration { nanos: secs as u128 * 1_000_000_000 + nanos as u128 }
    }

    /// The whole milliseconds of the span.
    pub fn as_millis(&self) -> (millis: u128)
        ensures
            millis == self.nanos() / 1_000_000,
    {
        self.nanos / 1_000_000
    }

    /// The whole seconds of the span.
    pub fn as_secs(&self) -> (secs: u64)
        ensures
            secs == self.nanos() / 1_000_000_000,
    {
        proof {
            use_type_invariant(self);
        }
        (self.nanos / 1_000_000_000) as u64
    }

    /// The nanoseconds of the span beyond its whole seconds.
    pub fn subsec_nanos(&self) -> (nanos: u32)
        ensures
            nanos == self.nanos() % 1_000_000_000,
    {
        (self.nanos % 1_000_000_000) as u32
    }

    /// Whether this is no time at all.
    pub fn is_zero(&self) -> (r: bool)
        ensures
            r == (self.nanos() == 0),
    {
        self.nanos == 0
    }

    /// Whether this span is longer than `other`.
    pub fn exceeds(&self, other: &Self) -> (r: bool)
        ensures
            r == (self.nanos() > other.nanos()),
    {
        self.nanos > other.nanos
    }

    /// `factor` times the span, if there is such a span.
    pub fn checked_mul(&self, factor: u32) -> (d: Option<Self>)
        ensures
            match d {
                Some(product) => product.nanos() == self.nanos() * factor as nat,
                None => self.nanos() * factor as nat > longest(),
            },
    {
        proof {
            use_type_invariant(self);
        }
        let ghost bound = longest();
        assert(self.nanos * factor <= bound * 0xffff_ffff) by (nonlinear_arith)
            requires
                self.nanos <= bound,
                factor <= 0xffff_ffff,
        ;
        let product: u128 = self.nanos * factor as u128;
        if product <= 0xffff_ffff_ffff_ffff * 1_000_000_000 + 999_999_999 {
            Some(Duration { nanos: product })
        } else {
            None
        }
    }

    /// The two spans one after the other, or the longest span if that is shorter.
    pub fn saturating_add(&self, other: &Self) -> (d: Self)
        ensures
            d.nanos() == if self.nanos() + other.nanos() <= longest() {
                self.nanos() + other.nanos()
            } else {
                longest()
            },
    {
        proof {
            use_type_invariant(self);
            use_type_invariant(other);
        }
        let max: u128 = 0xffff_ffff_ffff_ffff * 1_000_000_000 + 999_999_999;
        let sum: u128 = self.nanos + other.nanos;
        if sum <= max {
            Duration { nanos: sum }
        } else {
            Duration { nanos: max }
        }
    }

    /// The shorter of the two spans.
    pub fn shorter(&self, other: &Self) -> (d: Self)
        ensures
            d.nanos() == if self.nanos() <= other.nanos() {
                self.nanos()
            } else {
                other.nanos()
            },
    {
        if self.nanos <= other.nanos {
            *self
        } else {
            *other
        }
    }
}

/// The longest span is the largest number of seconds and the nanoseconds up to the next.
pub proof fn law_the_longest_span(secs: u64, nanos: u32)
    requires
        nanos < 1_000_000_000,
    ensures
        secs * 1_000_000_000 + nanos <= longest(),
        secs * 1_000_000_000 + nanos == longest() <==> secs == u64::MAX && nanos == 999_999_999,
{
}

/// A span that was made of seconds and nanoseconds has those seconds and those nanoseconds.
pub proof fn law_a_span_has_its_parts(
    secs: u64,
    nanos: u32,
    d: Duration,
    whole: u64,
    rest: u32,
    millis: u128,
)
    requires
        nanos < 1_000_000_000,
        call_ensures(Duration::from_parts, (secs, nanos), d),
        call_ensures(Duration::as_secs, (&d,), whole),
        call_ensures(Duration::subsec_nanos, (&d,), rest),
        call_ensures(Duration::as_millis, (&d,), millis),
    ensures
        whole == secs,
        rest == nanos,
        millis == secs * 1_000 + nanos / 1_000_000,
{
}

/// A thousand milliseconds are a second, and a thousand million nanoseconds.
pub proof fn law_units_of_time(n: u64, secs: Duration, millis: Duration, nanos: Duration)
    requires
        call_ensures(Duration::from_secs, (n,), secs),
        call_ensures(Duration::from_millis, (n,), millis),
        call_ensures(Duration::from_nanos, (n,), nanos),
    ensures
        secs.nanos() == 1_000 * millis.nanos(),
        millis.nanos() == 1_000_000 * nanos.nanos(),
        nanos.nanos() == n,
{
}

/// Of two spans the shorter is one of the two and exceeds neither, and the two after each other
/// are as long as both, up to the longest span.
pub proof fn law_two_spans(
    a: Duration,
    b: Duration,
    shorter: Duration,
    sum: Duration,
    turned: Duration,
    exceeds: bool,
)
    requires
        call_ensures(Duration::shorter, (&a, &b), shorter),
        call_ensures(Duration::saturating_add, (&a, &b), sum),
        call_ensures(Duration::saturating_add, (&b, &a), turned),
        call_ensures(Duration::exceeds, (&a, &b), exceeds),
    ensures
        shorter.nanos() <= a.nanos(),
        shorter.nanos() <= b.nanos(),
        shorter.nanos() == a.nanos() || shorter.nanos() == b.nanos(),
        sum.nanos() == turned.nanos(),
        sum.nanos() == a.nanos() + b.nanos() || (sum.nanos()
            == 18_446_744_073_709_551_615_999_999_999 && a.nanos() + b.nanos() > sum.nanos()),
        exceeds <==> a.nanos() > b.nanos(),
{
}

} // verus!
