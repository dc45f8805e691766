use vstd::prelude::*;
use crate::duration::{max_nanos, Duration};

verus! {

/// Nanoseconds after `tick` ticks of the hardware counter: the counter runs
/// at 19.2 MHz, so each tick is 625/12 ns.
pub open spec fn ticks_to_nanos(tick: int) -> int {
    tick * 625 / 12
}

/// A reading of the tick counter, as the time since the counter started.
/// Readings are ordered only within one continuous session.
#[derive(Clone, Copy, Debug, PartialEq, Eq, Structural, PartialOrd, Ord, Hash)]
pub struct Instant(Duration);

/// Wall-clock time as a span since the POSIX epoch.
#[derive(Clone, Copy, Debug, PartialEq, Eq, Structural, PartialOrd, Ord, Hash)]
pub struct SystemTime(Duration);

impl View for Instant {
    type V = int;

    /// Nanoseconds since the counter started.
    closed spec fn view(&self) -> int {
        self.0@
    }
}

impl View for SystemTime {
    type V = int;

    /// Nanoseconds since the epoch.
    closed spec fn view(&self) -> int {
        self.0@
    }
}

impl Instant {
    /// The held span is a valid duration.
    #[verifier::type_invariant]
    pub closed spec fn valid(self) -> bool {
        self.0.inv()
    }

    pub closed spec fn spec_checked_add_duration(self, d: Duration) -> Option<Instant> {
        match self.0.spec_checked_add(d) {
            Some(x) => Some(Instant(x)),
            None => None,
        }
    }

    pub closed spec fn spec_checked_sub_instant(self, other: Instant) -> Option<Duration> {
        self.0.spec_checked_sub(other.0)
    }

    pub closed spec fn spec_checked_sub_duration(self, d: Duration) -> Option<Instant> {
        match self.0.spec_checked_sub(d) {
            Some(x) => Some(Instant(x)),
            None => None,
        }
    }

    /// The instant `tick` counter ticks after the counter started.
    pub fn from_ticks(tick: u64) -> (r: Instant)
        ensures
            r.valid(),
            r@ == ticks_to_nanos(tick as int),
    {
        let n: u128 = (tick as u128) * 625 / 12;
        assert(n / 1_000_000_000 <= u64::MAX) by (nonlinear_arith)
            requires
                n == (tick as int) * 625 / 12,
                tick <= u64::MAX,
        ;
        let secs: u64 = (n / 1_000_000_000) as u64;
        let nanos: u32 = (n % 1_000_000_000) as u32;
        proof {
            vstd::arithmetic::div_mod::lemma_fundamental_div_mod(n as int, 1_000_000_000);
        }
        Instant(Duration::new(secs, nanos))
    }

    pub fn zero() -> (r: Instant)
        ensures
            r.valid(),
            r@ == 0,
    {
        Instant(Duration::zero())
    }

    /// Readings of the tick counter are not promised to be monotonic across
    /// sessions, so this is always `false`.
    pub fn actually_monotonic() -> (r: bool)
        ensures
            !r,
    {
        false
    }

    /// The time from `other` to `self`, or `None` where `other` is later.
    pub fn checked_sub_instant(&self, other: &Instant) -> (r: Option<Duration>)
        ensures
            r == self.spec_checked_sub_instant(*other),
            r.is_some() <==> self@ >= other@,
            r matches Some(d) ==> d@ == self@ - other@ && d.inv(),
    {
        self.0.checked_sub(other.0)
    }

    pub fn checked_add_duration(&self, other: &Duration) -> (r: Option<Instant>)
        ensures
            r == self.spec_checked_add_duration(*other),
            r.is_some() <==> self@ + other@ <= max_nanos(),
            r matches Some(t) ==> t@ == self@ + other@ && t.valid(),
    {
        match self.0.checked_add(*other) {
            Some(d) => Some(Instant(d)),
            None => None,
        }
    }

    pub fn checked_sub_duration(&self, other: &Duration) -> (r: Option<Instant>)
        ensures
            r == self.spec_checked_sub_duration(*other),
            r.is_some() <==> self@ >= other@,
            r matches Some(t) ==> t@ == self@ - other@ && t.valid(),
    {
        match self.0.checked_sub(*other) {
            Some(d) => Some(Instant(d)),
            None => None,
        }
    }

    /// Adding a duration to an instant and taking it away again gives back
    /// the instant, whenever the sum does not overflow.
    /// Every instant and duration held by executable code is valid:
    /// `use_type_invariant` supplies both preconditions.
    pub proof fn lemma_add_then_sub(x: Instant, d: Duration)
        requires
            x.valid(),
            d.inv(),
        ensures
            x.spec_checked_add_duration(d).is_some() <==> x@ + d@ <= max_nanos(),
            x.spec_checked_add_duration(d) matches Some(y) ==> y.spec_checked_sub_duration(d)
                == Some(x),
    {
        lemma_duration_add_then_sub(x.0, d);
    }
}

/// The duration law behind the add-then-subtract round trips.
proof fn lemma_duration_add_then_sub(x: Duration, d: Duration)
    requires
        x.inv(),
        d.inv(),
    ensures
        x.spec_checked_add(d).is_some() <==> x@ + d@ <= max_nanos(),
        x.spec_checked_add(d) matches Some(y) ==> y.spec_checked_sub(d) == Some(x),
{
    Duration::lemma_view_range(x);
    Duration::lemma_view_range(d);
    if x@ + d@ <= max_nanos() {
        Duration::lemma_from_view(x@ + d@);
        Duration::lemma_view_determines(x);
    }
}

impl SystemTime {
    /// The held span is a valid duration.
    #[verifier::type_invariant]
    pub closed spec fn valid(self) -> bool {
        self.0.inv()
    }

    pub closed spec fn spec_checked_add_duration(self, d: Duration) -> Option<SystemTime> {
        match self.0.spec_checked_add(d) {
            Some(x) => Some(SystemTime(x)),
            None => None,
        }
    }

    pub closed spec fn spec_checked_sub_duration(self, d: Duration) -> Option<SystemTime> {
        match self.0.spec_checked_sub(d) {
            Some(x) => Some(SystemTime(x)),
            None => None,
        }
    }

    /// The POSIX epoch.
    pub fn unix_epoch() -> (r: SystemTime)
        ensures
            r.valid(),
            r@ == 0,
    {
        SystemTime(Duration::zero())
    }

    /// The latest representable time.
    pub fn max_value() -> (r: SystemTime)
        ensures
            r.valid(),
            r@ == max_nanos(),
    {
        SystemTime(Duration::max_value())
    }

    /// The earliest representable time, the epoch itself.
    pub fn min_value() -> (r: SystemTime)
        ensures
            r.valid(),
            r@ == 0,
    {
        SystemTime(Duration::zero())
    }

    /// The time `posix_secs` whole seconds after the epoch, as the wall-clock
    /// service reports it.
    pub fn from_posixtime(posix_secs: u64) -> (r: SystemTime)
        ensures
            r.valid(),
            r@ == posix_secs as int * 1_000_000_000,
    {
        SystemTime(Duration::from_secs(posix_secs))
    }

    /// `Ok(self - other)` where `self` is not earlier than `other`, and
    /// otherwise `Err(other - self)`.
    pub fn sub_time(&self, other: &SystemTime) -> (r: Result<Duration, Duration>)
        ensures
            self@ >= other@ ==> r == Ok::<Duration, Duration>(Duration::from_view(self@ - other@)),
            self@ < other@ ==> r == Err::<Duration, Duration>(Duration::from_view(other@ - self@)),
            r matches Ok(d) ==> self@ >= other@ && d@ == self@ - other@,
            r matches Err(d) ==> self@ < other@ && d@ == other@ - self@,
    {
        match self.0.checked_sub(other.0) {
            Some(d) => Ok(d),
            None => {
                let d = other.0.checked_sub(self.0);
                match d {
                    Some(d) => Err(d),
                    None => Err(Duration::zero()),
                }
            },
        }
    }

    pub fn checked_add_duration(&self, other: &Duration) -> (r: Option<SystemTime>)
        ensures
            r == self.spec_checked_add_duration(*other),
            r.is_some() <==> self@ + other@ <= max_nanos(),
            r matches Some(t) ==> t@ == self@ + other@ && t.valid(),
    {
        match self.0.checked_add(*other) {
            Some(d) => Some(SystemTime(d)),
            None => None,
        }
    }

    pub fn checked_sub_duration(&self, other: &Duration) -> (r: Option<SystemTime>)
        ensures
            r == self.spec_checked_sub_duration(*other),
            r.is_some() <==> self@ >= other@,
            r matches Some(t) ==> t@ == self@ - other@ && t.valid(),
    {
        match self.0.checked_sub(*other) {
            Some(d) => Some(SystemTime(d)),
            None => None,
        }
    }

    /// Adding a duration to a time and taking it away again gives back the
    /// time, whenever the sum does not overflow.
    /// Every time and duration held by executable code is valid:
    /// `use_type_invariant` supplies both preconditions.
    pub proof fn lemma_add_then_sub(x: SystemTime, d: Duration)
        requires
            x.valid(),
            d.inv(),
        ensures
            x.spec_checked_add_duration(d).is_some() <==> x@ + d@ <= max_nanos(),
            x.spec_checked_add_duration(d) matches Some(y) ==> y.spec_checked_sub_duration(d)
                == Some(x),
    {
        lemma_duration_add_then_sub(x.0, d);
    }
}

/// Seconds and nanoseconds relative to the epoch, in the layout of the C
/// library's `timespec`; the seconds may be negative.
#[derive(Clone, Copy, Debug, PartialEq, Eq, Structural, PartialOrd, Ord, Hash)]
pub struct Timespec {
    tv_sec: i64,
    tv_nsec: u32,
}

impl View for Timespec {
    type V = int;

    /// Nanoseconds relative to the epoch.
    closed spec fn view(&self) -> int {
        self.tv_sec as int * 1_000_000_000 + self.tv_nsec as int
    }
}

impl Timespec {
    /// The nanosecond part is always below one second.
    #[verifier::type_invariant]
    pub closed spec fn inv(self) -> bool {
        self.tv_nsec < 1_000_000_000
    }

    pub fn zero() -> (r: Timespec)
        ensures
            r@ == 0,
    {
        Timespec::new(0, 0)
    }

    /// The time `tv_sec` seconds plus `tv_nsec` nanoseconds after the epoch;
    /// the nanoseconds must be below one second.
    pub fn new(tv_sec: i64, tv_nsec: i64) -> (r: Timespec)
        requires
            0 <= tv_nsec < 1_000_000_000,
        ensures
            r@ == tv_sec as int * 1_000_000_000 + tv_nsec as int,
            r.tv_sec() == tv_sec,
            r.tv_nsec() == tv_nsec,
    {
        Timespec { tv_sec, tv_nsec: tv_nsec as u32 }
    }

    pub closed spec fn tv_sec(self) -> int {
        self.tv_sec as int
    }

    pub closed spec fn tv_nsec(self) -> int {
        self.tv_nsec as int
    }

    /// Whole seconds, rounded towards negative infinity.
    pub fn secs(&self) -> (r: i64)
        ensures
            r == self.tv_sec(),
            r == self@ / 1_000_000_000,
    {
        proof {
            use_type_invariant(self);
            lemma_split(self.tv_sec as int, self.tv_nsec as int);
        }
        self.tv_sec
    }

    /// The nanoseconds past the whole seconds.
    pub fn subsec_nanos(&self) -> (r: u32)
        ensures
            r == self.tv_nsec(),
            r == self@ % 1_000_000_000,
    {
        proof {
            use_type_invariant(self);
            lemma_split(self.tv_sec as int, self.tv_nsec as int);
        }
        self.tv_nsec
    }

    /// `self + other`, or `None` where the seconds overflow.
    pub fn checked_add_duration(&self, other: &Duration) -> (r: Option<Timespec>)
        ensures
            r.is_some() <==> (self@ + other@) / 1_000_000_000 <= i64::MAX,
            r matches Some(t) ==> t@ == self@ + other@,
    {
        proof {
            use_type_invariant(self);
            lemma_split(self.tv_sec as int, self.tv_nsec as int);
            vstd::arithmetic::div_mod::lemma_fundamental_div_mod(other@, 1_000_000_000);
        }
        let osecs = other.as_secs();
        let onanos = other.subsec_nanos();
        let mut secs = match self.tv_sec.checked_add_unsigned(osecs) {
            Some(s) => s,
            None => {
                proof {
                    lemma_split(self.tv_sec + osecs, 0);
                    vstd::arithmetic::div_mod::lemma_div_is_ordered(
                        (self.tv_sec + osecs) * 1_000_000_000,
                        self@ + other@,
                        1_000_000_000,
                    );
                }
                return None;
            },
        };
        let mut nsec: u32 = onanos + self.tv_nsec;
        if nsec >= 1_000_000_000 {
            nsec = nsec - 1_000_000_000;
            secs = match secs.checked_add(1) {
                Some(s) => s,
                None => {
                    proof {
                        lemma_split(secs + 1, nsec as int);
                    }
                    return None;
                },
            };
        }
        proof {
            lemma_split(secs as int, nsec as int);
        }
        Some(Timespec::new(secs, nsec as i64))
    }
}

/// Seconds and a nanosecond part below one second split a nanosecond count
/// by division.
proof fn lemma_split(s: int, n: int)
    requires
        0 <= n < 1_000_000_000,
    ensures
        (s * 1_000_000_000 + n) / 1_000_000_000 == s,
        (s * 1_000_000_000 + n) % 1_000_000_000 == n,
{
    vstd::arithmetic::div_mod::lemma_fundamental_div_mod_converse(
        s * 1_000_000_000 + n,
        1_000_000_000,
        s,
        n,
    );
}

} // verus!
