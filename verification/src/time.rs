//! Points in time and spans of time, as counts of nanoseconds.
//!
//! The arithmetic saturates: a sum that would leave the range of its type is
//! the nearest end of that range. No operation here fails but the reading of
//! the clock.

use chrono::DateTime;
use std::time::{SystemTime, UNIX_EPOCH};
use vstd::prelude::*;

verus! {

/// A point on the UTC time line: nanoseconds since 1970-01-01T00:00:00Z,
/// negative before it.
#[derive(Clone, Copy, Debug, PartialEq, Eq, Structural)]
pub struct Timestamp {
    pub nanos: i128,
}

/// A signed length of time in nanoseconds (about 292 years either way).
#[derive(Clone, Copy, Debug, PartialEq, Eq, Structural)]
pub struct Span {
    pub nanos: i64,
}

impl View for Timestamp {
    type V = int;

    open spec fn view(&self) -> int {
        self.nanos as int
    }
}

impl View for Span {
    type V = int;

    open spec fn view(&self) -> int {
        self.nanos as int
    }
}

/// `n`, or the end of `lo ..= hi` that is nearest to it.
pub open spec fn clamp(n: int, lo: int, hi: int) -> int {
    if n < lo {
        lo
    } else if n > hi {
        hi
    } else {
        n
    }
}

/// std's `SystemTime`: a reading of the system clock, of which nothing is
/// known here.
#[verifier::external_type_specification]
#[verifier::external_body]
pub struct ExSystemTime(SystemTime);

/// The system clock: std's `SystemTime::now`. Nothing is claimed of the
/// value: it is whatever the clock says.
#[verifier::external_body]
fn system_now() -> (at: SystemTime) {
    SystemTime::now()
}

/// How long after the Unix epoch a reading of the clock was taken: std's
/// `SystemTime::duration_since` with `UNIX_EPOCH`, read off as whole seconds
/// and nanoseconds; `None` where it gives an error, which it does for a
/// reading before the epoch. Nothing is claimed of the value.
#[verifier::external_body]
fn since_epoch(at: SystemTime) -> (t: Option<(u64, u32)>) {
    match at.duration_since(UNIX_EPOCH) {
        Ok(since) => Some((since.as_secs(), since.subsec_nanos())),
        Err(_) => None,
    }
}

/// A time as chrono's calendar holds it: chrono's `DateTime::from_timestamp`
/// of seconds and nanoseconds since the epoch, read off again with
/// `DateTime::timestamp` and `DateTime::timestamp_subsec_nanos`; `None` where
/// `from_timestamp` gives none, which it does for a time that the calendar
/// does not reach. Nothing is claimed of the value.
#[verifier::external_body]
fn calendar_time(secs: i64, nanos: u32) -> (t: Option<(i64, u32)>) {
    match DateTime::from_timestamp(secs, nanos) {
        Some(at) => Some((at.timestamp(), at.timestamp_subsec_nanos())),
        None => None,
    }
}

impl Timestamp {
    /// The point `nanos` nanoseconds after the start of second `secs`.
    pub fn new(secs: i64, nanos: u32) -> (t: Timestamp)
        ensures
            t@ == secs * 1_000_000_000 + nanos,
    {
        let s: i128 = secs as i128;
        let n: i128 = nanos as i128;
        Timestamp { nanos: s * 1_000_000_000 + n }
    }

    /// Whether this point is one that the clock can give: whole seconds
    /// that fit 64 bits, and nanoseconds that fit 32.
    pub open spec fn on_clock(&self) -> bool {
        i64::MIN * 1_000_000_000 <= self@ <= i64::MAX * 1_000_000_000 + u32::MAX
    }

    /// The time on the system clock; `None` where the clock cannot be read
    /// as a time of the calendar: it stands before 1970, or beyond the years
    /// that the calendar reaches.
    pub fn now() -> (t: Option<Timestamp>)
        ensures
            t matches Some(now) ==> now.on_clock(),
    {
        match since_epoch(system_now()) {
            Some((secs, nanos)) => {
                if secs > 0x7fff_ffff_ffff_ffff {
                    None
                } else {
                    match calendar_time(secs as i64, nanos) {
                        Some((secs, nanos)) => Some(Timestamp::new(secs, nanos)),
                        None => None,
                    }
                }
            },
            None => None,
        }
    }

    /// Whether this point is `other` or later.
    pub open spec fn spec_reached(&self, other: Timestamp) -> bool {
        self@ >= other@
    }

    #[verifier::when_used_as_spec(spec_reached)]
    pub fn reached(&self, other: Timestamp) -> (r: bool)
        ensures
            r == self.reached(other),
    {
        self.nanos >= other.nanos
    }

    /// This point moved by `span`, later for a positive span; the first or
    /// the last point of all where the sum lies beyond it.
    pub open spec fn spec_plus(&self, span: Span) -> Timestamp {
        Timestamp { nanos: clamp(self@ + span@, i128::MIN as int, i128::MAX as int) as i128 }
    }

    #[verifier::when_used_as_spec(spec_plus)]
    pub fn plus(&self, span: Span) -> (t: Timestamp)
        ensures
            t == self.plus(span),
    {
        let d: i128 = span.nanos as i128;
        if d >= 0 && self.nanos > i128::MAX - d {
            Timestamp { nanos: i128::MAX }
        } else if d < 0 && self.nanos < i128::MIN - d {
            Timestamp { nanos: i128::MIN }
        } else {
            Timestamp { nanos: self.nanos + d }
        }
    }

    /// This point moved back by `span`, earlier for a positive span; the
    /// first or the last point of all where the difference lies beyond it.
    pub open spec fn spec_minus(&self, span: Span) -> Timestamp {
        Timestamp { nanos: clamp(self@ - span@, i128::MIN as int, i128::MAX as int) as i128 }
    }

    #[verifier::when_used_as_spec(spec_minus)]
    pub fn minus(&self, span: Span) -> (t: Timestamp)
        ensures
            t == self.minus(span),
    {
        let d: i128 = span.nanos as i128;
        if d >= 0 && self.nanos < i128::MIN + d {
            Timestamp { nanos: i128::MIN }
        } else if d < 0 && self.nanos > i128::MAX + d {
            Timestamp { nanos: i128::MAX }
        } else {
            Timestamp { nanos: self.nanos - d }
        }
    }
}

impl Span {
    /// A span of no length.
    pub fn zero() -> (s: Span)
        ensures
            s@ == 0,
    {
        Span { nanos: 0 }
    }

    pub fn nanoseconds(nanos: i64) -> (s: Span)
        ensures
            s@ == nanos,
    {
        Span { nanos }
    }

    pub fn microseconds(micros: i64) -> (s: Span)
        ensures
            s@ == clamp(micros * 1_000, i64::MIN as int, i64::MAX as int),
    {
        Span::scaled(micros, 1_000)
    }

    pub fn milliseconds(millis: i64) -> (s: Span)
        ensures
            s@ == clamp(millis * 1_000_000, i64::MIN as int, i64::MAX as int),
    {
        Span::scaled(millis, 1_000_000)
    }

    pub fn seconds(secs: i64) -> (s: Span)
        ensures
            s@ == clamp(secs * 1_000_000_000, i64::MIN as int, i64::MAX as int),
    {
        Span::scaled(secs, 1_000_000_000)
    }

    fn scaled(count: i64, unit: i64) -> (s: Span)
        requires
            0 < unit <= 1_000_000_000,
        ensures
            s@ == clamp(count * unit, i64::MIN as int, i64::MAX as int),
    {
        let c: i128 = count as i128;
        let u: i128 = unit as i128;
        assert(-0x8000_0000_0000_0000 * 1_000_000_000 <= c * u <= 0x8000_0000_0000_0000 * 1_000_000_000)
            by (nonlinear_arith)
            requires
                -0x8000_0000_0000_0000 <= c < 0x8000_0000_0000_0000,
                0 < u <= 1_000_000_000,
        ;
        let wide: i128 = c * u;
        if wide > i64::MAX as i128 {
            Span { nanos: i64::MAX }
        } else if wide < i64::MIN as i128 {
            Span { nanos: i64::MIN }
        } else {
            Span { nanos: wide as i64 }
        }
    }
}

} // verus!
