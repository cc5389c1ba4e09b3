//! The clock that produces each frame's tick: real elapsed time since the
//! source was created, in whole milliseconds, optionally slowed down for debugging.
use core::time::Duration;
use vstd::prelude::*;

use crate::instant::{clamp_millis, Instant};

verus! {

#[verifier::external_type_specification]
#[verifier::external_body]
pub struct ExClockInstant(std::time::Instant);

/// The value of a string of decimal digits.
pub open spec fn digits_value(s: Seq<char>) -> nat
    decreases s.len(),
{
    if s.len() == 0 {
        0
    } else {
        digits_value(s.drop_last()) * 10 + ((s.last() as u32) - ('0' as u32)) as nat
    }
}

/// Every character of `s` is an ASCII decimal digit.
pub open spec fn all_digits(s: Seq<char>) -> bool {
    forall|i: int| 0 <= i < s.len() ==> '0' <= #[trigger] s[i] && s[i] <= '9'
}

/// The digits of a number written with an optional leading `+`.
pub open spec fn unsigned_digits(s: Seq<char>) -> Seq<char> {
    if s.len() > 0 && s[0] == '+' {
        s.skip(1)
    } else {
        s
    }
}

/// The `u32` that `s` writes in decimal, if it writes one: an optional `+`,
/// at least one digit and nothing else, with a value that fits in 32 bits.
pub open spec fn decimal_u32(s: Seq<char>) -> Option<u32> {
    let d = unsigned_digits(s);
    if d.len() > 0 && all_digits(d) && digits_value(d) <= u32::MAX {
        Some(digits_value(d) as u32)
    } else {
        None
    }
}

/// The slowdown factor set by a debugging setting: none when it is unset, the
/// number it writes when that is a positive integer, and two otherwise.
pub open spec fn slowdown_factor_of(setting: Option<Seq<char>>) -> u64 {
    match setting {
        None => 1,
        Some(s) => match decimal_u32(s) {
            Some(n) => if n > 0 {
                n as u64
            } else {
                2
            },
            None => 2,
        },
    }
}

/// Relies on `str::parse::<u32>`: it accepts exactly an optional `+` followed by
/// decimal digits whose value fits in a `u32`.
#[verifier::external_body]
fn parse_u32(s: &str) -> (r: Option<u32>)
    ensures
        r == decimal_u32(s@),
{
    s.parse::<u32>().ok()
}

/// Relies on `instant::Instant::now`: the current reading of the monotonic clock.
#[verifier::external_body]
fn clock_now() -> std::time::Instant {
    instant::Instant::now()
}

/// Relies on `instant::Instant::elapsed`: the real time since `start` (no
/// promise about its value).
#[verifier::external_body]
fn clock_elapsed(start: &std::time::Instant) -> Duration {
    start.elapsed()
}

/// The slowdown factor for the value of the debugging setting, if it is set.
pub fn slowdown_factor(setting: Option<&str>) -> (r: u64)
    ensures
        r == slowdown_factor_of(
            match setting {
                Some(s) => Some(s@),
                None => None,
            },
        ),
        r > 0,
{
    match setting {
        None => 1,
        Some(s) => match parse_u32(s) {
            Some(n) => if n > 0 {
                n as u64
            } else {
                2
            },
            None => 2,
        },
    }
}

/// The tick for `elapsed_ms` milliseconds of real time slowed down by `factor`.
pub fn scaled_tick(elapsed_ms: u64, factor: u64) -> (r: Instant)
    requires
        factor > 0,
    ensures
        r.0 == elapsed_ms / factor,
{
    Instant(elapsed_ms / factor)
}

/// A monotonic clock started at construction, with a debugging slowdown factor.
pub struct TimeSource {
    start: std::time::Instant,
    factor: u64,
}

/// The tick that `elapsed_ms` milliseconds of real time give at slowdown `factor`.
pub open spec fn tick_of(elapsed_ms: u64, factor: u64) -> Instant {
    Instant((elapsed_ms / factor) as u64)
}

impl TimeSource {
    #[verifier::type_invariant]
    spec fn inv(&self) -> bool {
        self.factor > 0
    }

    /// Starts a clock now, slowed down as the debugging setting says.
    pub fn new(slowdown_setting: Option<&str>) -> (r: TimeSource)
        ensures
            r.factor() == slowdown_factor_of(
                match slowdown_setting {
                    Some(s) => Some(s@),
                    None => None,
                },
            ),
            r.factor() > 0,
    {
        TimeSource { start: clock_now(), factor: slowdown_factor(slowdown_setting) }
    }

    /// The factor by which elapsed time is divided.
    pub closed spec fn factor(&self) -> u64 {
        self.factor
    }

    /// The factor by which elapsed time is divided.
    pub fn slowdown(&self) -> (r: u64)
        ensures
            r == self.factor(),
    {
        self.factor
    }

    /// The tick for now: the whole milliseconds elapsed since the clock started,
    /// divided by the slowdown factor.
    pub fn now(&self) -> (r: Instant)
        ensures
            self.factor() > 0,
            exists|ms: u64| r == #[trigger] tick_of(ms, self.factor()),
    {
        proof {
            use_type_invariant(self);
        }
        let ms = clamp_millis(clock_elapsed(&self.start).as_millis());
        let r = scaled_tick(ms, self.factor);
        assert(r == tick_of(ms, self.factor));
        r
    }
}

} // verus!
