use vstd::prelude::*;

verus! {

/// Nanoseconds in one second.
pub const NANOS_PER_SEC: u32 = 1_000_000_000;

/// Largest number of nanoseconds a `Duration` can hold.
pub open spec fn max_nanos() -> int {
    u64::MAX as int * 1_000_000_000 + 999_999_999
}

/// A span of time: whole seconds plus a sub-second nanosecond part.
#[derive(Clone, Copy, Debug, PartialEq, Eq, Structural, PartialOrd, Ord, Hash)]
pub struct Duration {
    secs: u64,
    nanos: u32,
}

impl View for Duration {
    type V = int;

    /// The span in nanoseconds.
    closed spec fn view(&self) -> int {
        self.secs as int * 1_000_000_000 + self.nanos as int
    }
}

impl Duration {
    /// The nanosecond part is always below one second.
    #[verifier::type_invariant]
    pub closed spec fn inv(self) -> bool {
        self.nanos < 1_000_000_000
    }

    /// The duration of `n` nanoseconds, for `0 <= n <= max_nanos()`.
    pub closed spec fn from_view(n: int) -> Duration {
        Duration { secs: (n / 1_000_000_000) as u64, nanos: (n % 1_000_000_000) as u32 }
    }

    pub open spec fn spec_checked_add(self, other: Duration) -> Option<Duration> {
        if self@ + other@ <= max_nanos() {
            Some(Duration::from_view(self@ + other@))
        } else {
            None
        }
    }

    pub open spec fn spec_checked_sub(self, other: Duration) -> Option<Duration> {
        if self@ >= other@ {
            Some(Duration::from_view(self@ - other@))
        } else {
            None
        }
    }

    /// A valid duration has a view in range.
    pub proof fn lemma_view_range(d: Duration)
        requires
            d.inv(),
        ensures
            0 <= d@ <= max_nanos(),
    {
    }

    /// `from_view` builds a valid duration with the given view.
    pub proof fn lemma_from_view(n: int)
        requires
            0 <= n <= max_nanos(),
        ensures
            Duration::from_view(n).inv(),
            Duration::from_view(n)@ == n,
    {
        assert(n / 1_000_000_000 <= u64::MAX) by (nonlinear_arith)
            requires
                0 <= n <= max_nanos(),
        ;
    }

    /// A valid duration is determined by its view.
    pub proof fn lemma_view_determines(d: Duration)
        requires
            d.inv(),
        ensures
            Duration::from_view(d@) == d,
    {
        assert((d.secs as int * 1_000_000_000 + d.nanos as int) / 1_000_000_000 == d.secs as int)
            by (nonlinear_arith)
            requires
                d.nanos < 1_000_000_000,
        ;
        assert((d.secs as int * 1_000_000_000 + d.nanos as int) % 1_000_000_000 == d.nanos as int)
            by (nonlinear_arith)
            requires
                d.nanos < 1_000_000_000,
        ;
    }

    /// The empty duration.
    pub fn zero() -> (r: Duration)
        ensures
            r.inv(),
            r@ == 0,
    {
        Duration { secs: 0, nanos: 0 }
    }

    /// The longest duration.
    pub fn max_value() -> (r: Duration)
        ensures
            r.inv(),
            r@ == max_nanos(),
    {
        Duration { secs: u64::MAX, nanos: 999_999_999 }
    }

    /// `secs` seconds and `nanos` nanoseconds; nanoseconds past a second
    /// carry into the seconds, which must not overflow.
    pub fn new(secs: u64, nanos: u32) -> (r: Duration)
        requires
            secs as int + nanos as int / 1_000_000_000 <= u64::MAX,
        ensures
            r.inv(),
            r@ == secs as int * 1_000_000_000 + nanos as int,
    {
        let extra: u64 = (nanos / NANOS_PER_SEC) as u64;
        Duration { secs: secs + extra, nanos: nanos % NANOS_PER_SEC }
    }

    pub fn from_secs(secs: u64) -> (r: Duration)
        ensures
            r.inv(),
            r@ == secs as int * 1_000_000_000,
    {
        Duration { secs, nanos: 0 }
    }

    pub fn from_nanos(nanos: u64) -> (r: Duration)
        ensures
            r.inv(),
            r@ == nanos as int,
    {
        let r = Duration { secs: nanos / 1_000_000_000, nanos: (nanos % 1_000_000_000) as u32 };
        proof {
            Duration::lemma_from_view(nanos as int);
            assert(r == Duration::from_view(nanos as int));
        }
        r
    }

    /// Whole seconds.
    pub fn as_secs(&self) -> (r: u64)
        ensures
            r as int == self@ / 1_000_000_000,
    {
        proof {
            use_type_invariant(self);
            Duration::lemma_view_determines(*self);
        }
        self.secs
    }

    /// The nanoseconds past the whole seconds.
    pub fn subsec_nanos(&self) -> (r: u32)
        ensures
            r as int == self@ % 1_000_000_000,
            r < 1_000_000_000,
    {
        proof {
            use_type_invariant(self);
            Duration::lemma_view_determines(*self);
        }
        self.nanos
    }

    /// The microseconds past the whole seconds, rounded down.
    pub fn subsec_micros(&self) -> (r: u32)
        ensures
            r as int == (self@ % 1_000_000_000) / 1_000,
            r < 1_000_000,
    {
        self.subsec_nanos() / 1_000
    }

    /// The milliseconds past the whole seconds, rounded down.
    pub fn subsec_millis(&self) -> (r: u32)
        ensures
            r as int == (self@ % 1_000_000_000) / 1_000_000,
            r < 1_000,
    {
        self.subsec_nanos() / 1_000_000
    }

    pub fn is_zero(&self) -> (r: bool)
        ensures
            r == (self@ == 0),
    {
        proof {
            use_type_invariant(self);
        }
        self.secs == 0 && self.nanos == 0
    }

    /// `self + other`, or `None` where the sum does not fit.
    pub fn checked_add(&self, other: Duration) -> (r: Option<Duration>)
        ensures
            r == self.spec_checked_add(other),
            r.is_some() <==> self@ + other@ <= max_nanos(),
            r matches Some(d) ==> d@ == self@ + other@ && d.inv(),
    {
        proof {
            use_type_invariant(self);
            use_type_invariant(&other);
        }
        let mut nanos: u32 = self.nanos + other.nanos;
        let mut carry: u64 = 0;
        if nanos >= NANOS_PER_SEC {
            nanos = nanos - NANOS_PER_SEC;
            carry = 1;
        }
        match self.secs.checked_add(other.secs) {
            None => None,
            Some(s) => match s.checked_add(carry) {
                None => None,
                Some(secs) => {
                    let r = Duration { secs, nanos };
                    proof {
                        Duration::lemma_from_view(self@ + other@);
                        Duration::lemma_view_determines(r);
                    }
                    Some(r)
                },
            },
        }
    }

    /// `self - other`, or `None` where `other` is the longer.
    pub fn checked_sub(&self, other: Duration) -> (r: Option<Duration>)
        ensures
            r == self.spec_checked_sub(other),
            r.is_some() <==> self@ >= other@,
            r matches Some(d) ==> d@ == self@ - other@ && d.inv(),
    {
        proof {
            use_type_invariant(self);
            use_type_invariant(&other);
        }
        if self.secs < other.secs || (self.secs == other.secs && self.nanos < other.nanos) {
            return None;
        }
        let r = if self.nanos >= other.nanos {
            Duration { secs: self.secs - other.secs, nanos: self.nanos - other.nanos }
        } else {
            Duration {
                secs: self.secs - other.secs - 1,
                nanos: self.nanos + NANOS_PER_SEC - other.nanos,
            }
        };
        proof {
            Duration::lemma_from_view(self@ - other@);
            Duration::lemma_view_determines(r);
        }
        Some(r)
    }

    /// `self - other`, or zero where `other` is the longer.
    pub fn saturating_sub(&self, other: Duration) -> (r: Duration)
        ensures
            r.inv(),
            r@ == if self@ >= other@ { self@ - other@ } else { 0 },
    {
        match self.checked_sub(other) {
            Some(d) => d,
            None => Duration::zero(),
        }
    }
}

} // verus!
