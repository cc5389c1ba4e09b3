//! Millisecond timestamps and their arithmetic with `core::time::Duration`.
use core::time::Duration;
use vstd::prelude::*;

verus! {

/// The whole number of milliseconds in a duration (what `Duration::as_millis` gives).
pub uninterp spec fn millis_of(d: Duration) -> nat;

/// Relies on `Duration::from_millis`: the duration holds exactly `millis` milliseconds.
pub assume_specification[ core::time::Duration::from_millis ](millis: u64) -> (r: Duration)
    ensures
        millis_of(r) == millis,
;

/// Relies on `Duration::as_millis`: the total whole milliseconds of the duration.
pub assume_specification[ core::time::Duration::as_millis ](d: &Duration) -> (r: u128)
    ensures
        r == millis_of(*d),
;

/// A timestamp, in milliseconds since the animation driver's clock started.
#[derive(Clone, Copy, Debug, PartialEq, Eq, PartialOrd, Ord, Hash, Default, Structural)]
pub struct Instant(pub u64);

/// `a` moved forward by `ms` milliseconds, saturating at the largest timestamp.
pub open spec fn add_millis(a: Instant, ms: nat) -> Instant {
    if a.0 + ms <= u64::MAX {
        Instant((a.0 + ms) as u64)
    } else {
        Instant(u64::MAX)
    }
}

/// `a` moved back by `ms` milliseconds, saturating at the clock's start.
pub open spec fn sub_millis(a: Instant, ms: nat) -> Instant {
    if ms <= a.0 {
        Instant((a.0 - ms) as u64)
    } else {
        Instant(0)
    }
}

/// The milliseconds from `earlier` to `later`; zero when `earlier` is the later one.
pub open spec fn diff_millis(later: Instant, earlier: Instant) -> nat {
    if earlier.0 <= later.0 {
        (later.0 - earlier.0) as nat
    } else {
        0
    }
}

/// A count of milliseconds held in a `u64`, saturating at its largest value.
pub(crate) fn clamp_millis(ms: u128) -> (r: u64)
    ensures
        r == if ms <= u64::MAX { ms as int } else { u64::MAX as int },
{
    if ms <= u64::MAX as u128 {
        ms as u64
    } else {
        u64::MAX
    }
}

impl Instant {
    /// Returns the amount of time elapsed since an other instant.
    ///
    /// Equivalent to `self - earlier`; zero when `earlier` is later than `self`.
    pub fn duration_since(self, earlier: Instant) -> (r: Duration)
        ensures
            millis_of(r) == diff_millis(self, earlier),
    {
        let ms: u64 = if earlier.0 <= self.0 {
            self.0 - earlier.0
        } else {
            0
        };
        Duration::from_millis(ms)
    }

    /// This instant moved forward by `d`, saturating at the largest timestamp.
    pub fn add_duration(self, d: Duration) -> (r: Instant)
        ensures
            r == add_millis(self, millis_of(d)),
    {
        let ms = clamp_millis(d.as_millis());
        Instant(self.0.saturating_add(ms))
    }

    /// This instant moved back by `d`, saturating at the clock's start.
    pub fn sub_duration(self, d: Duration) -> (r: Instant)
        ensures
            r == sub_millis(self, millis_of(d)),
    {
        let ms = clamp_millis(d.as_millis());
        Instant(self.0.saturating_sub(ms))
    }
}

impl core::ops::Sub<Instant> for Instant {
    type Output = Duration;

    fn sub(self, other: Instant) -> (r: Duration)
        ensures
            millis_of(r) == diff_millis(self, other),
    {
        self.duration_since(other)
    }
}

impl vstd::std_specs::ops::SubSpecImpl<Instant> for Instant {
    open spec fn obeys_sub_spec() -> bool {
        false
    }

    open spec fn sub_req(self, rhs: Instant) -> bool {
        true
    }

    open spec fn sub_spec(self, rhs: Instant) -> Duration {
        arbitrary()
    }
}

impl core::ops::Sub<Duration> for Instant {
    type Output = Instant;

    fn sub(self, other: Duration) -> (r: Instant)
        ensures
            r == sub_millis(self, millis_of(other)),
    {
        self.sub_duration(other)
    }
}

impl vstd::std_specs::ops::SubSpecImpl<Duration> for Instant {
    open spec fn obeys_sub_spec() -> bool {
        true
    }

    open spec fn sub_req(self, rhs: Duration) -> bool {
        true
    }

    open spec fn sub_spec(self, rhs: Duration) -> Instant {
        sub_millis(self, millis_of(rhs))
    }
}

impl core::ops::Add<Duration> for Instant {
    type Output = Instant;

    fn add(self, other: Duration) -> (r: Instant)
        ensures
            r == add_millis(self, millis_of(other)),
    {
        self.add_duration(other)
    }
}

impl vstd::std_specs::ops::AddSpecImpl<Duration> for Instant {
    open spec fn obeys_add_spec() -> bool {
        true
    }

    open spec fn add_req(self, rhs: Duration) -> bool {
        true
    }

    open spec fn add_spec(self, rhs: Duration) -> Instant {
        add_millis(self, millis_of(rhs))
    }
}

impl core::ops::AddAssign<Duration> for Instant {
    fn add_assign(&mut self, other: Duration)
        ensures
            *final(self) == add_millis(*old(self), millis_of(other)),
    {
        *self = self.add_duration(other);
    }
}

impl core::ops::SubAssign<Duration> for Instant {
    fn sub_assign(&mut self, other: Duration)
        ensures
            *final(self) == sub_millis(*old(self), millis_of(other)),
    {
        *self = self.sub_duration(other);
    }
}

/// Adding a duration and then measuring from the starting point gives the
/// duration back, and taking a duration away and then adding it again gives the
/// starting point back, whenever no step leaves the range of timestamps.
pub proof fn lemma_duration_round_trip(a: Instant, d: Duration)
    ensures
        a.0 + millis_of(d) <= u64::MAX ==> diff_millis(add_millis(a, millis_of(d)), a)
            == millis_of(d),
        millis_of(d) <= a.0 ==> add_millis(sub_millis(a, millis_of(d)), millis_of(d)) == a,
{
}

} // verus!
