//! Instants, and the packed integer timestamps that the export writes.
use vstd::prelude::*;

use crate::error::ConversionError;
use crate::numeric::{decode_integer, parse_i64_spec};

verus! {

pub const NANOS_PER_SEC: u32 = 1_000_000_000;

/// The earliest whole second that a UTC date-time can hold
/// (-262143-01-01T00:00:00Z), counted from the Unix epoch.
pub const MIN_UTC_SECS: i64 = -8_334_601_228_800;

/// The latest whole second that a UTC date-time can hold
/// (+262142-12-31T23:59:59Z), counted from the Unix epoch.
pub const MAX_UTC_SECS: i64 = 8_210_266_876_799;

/// Relies on chrono's `DateTime::<Utc>::from_timestamp`: for a sub-second
/// part below one second it gives a date-time exactly when the second lies
/// between `NaiveDate::MIN` (-262143-01-01) at midnight and `NaiveDate::MAX`
/// (+262142-12-31) at 23:59:59.
#[verifier::external_body]
fn utc_accepts(secs: i64, nanos: u32) -> (r: bool)
    requires
        nanos < NANOS_PER_SEC,
    ensures
        r == (MIN_UTC_SECS <= secs && secs <= MAX_UTC_SECS),
{
    chrono::DateTime::<chrono::Utc>::from_timestamp(secs, nanos).is_some()
}

/// The unit in which a schema version counts its timestamps.
#[derive(Debug, Clone, Copy, PartialEq, Eq, Structural)]
pub enum TimestampUnit {
    Seconds,
    Milliseconds,
    Microseconds,
}

impl TimestampUnit {
    /// How many of the unit make one second.
    pub open spec fn per_second(self) -> int {
        match self {
            TimestampUnit::Seconds => 1,
            TimestampUnit::Milliseconds => 1_000,
            TimestampUnit::Microseconds => 1_000_000,
        }
    }

    /// How many nanoseconds make one of the unit.
    pub open spec fn nanos_per_unit(self) -> int {
        match self {
            TimestampUnit::Seconds => 1_000_000_000,
            TimestampUnit::Milliseconds => 1_000_000,
            TimestampUnit::Microseconds => 1_000,
        }
    }

    pub fn units_per_second(self) -> (r: i64)
        ensures
            r == self.per_second(),
    {
        match self {
            TimestampUnit::Seconds => 1,
            TimestampUnit::Milliseconds => 1_000,
            TimestampUnit::Microseconds => 1_000_000,
        }
    }

    pub fn nanos_per_one(self) -> (r: u32)
        ensures
            r == self.nanos_per_unit(),
    {
        match self {
            TimestampUnit::Seconds => 1_000_000_000,
            TimestampUnit::Milliseconds => 1_000_000,
            TimestampUnit::Microseconds => 1_000,
        }
    }
}

/// An instant in UTC: whole seconds since the Unix epoch (negative before
/// it) and the nanoseconds past that second.
#[derive(Debug, Clone, Copy, PartialEq, Eq, PartialOrd, Ord, Hash)]
pub struct AbsoluteTime {
    secs: i64,
    nanos: u32,
}

/// Whether a second count and a sub-second part make an instant.
pub open spec fn valid_instant(secs: int, nanos: int) -> bool {
    MIN_UTC_SECS <= secs <= MAX_UTC_SECS && 0 <= nanos < NANOS_PER_SEC
}

impl AbsoluteTime {
    #[verifier::type_invariant]
    spec fn inv(self) -> bool {
        valid_instant(self.secs as int, self.nanos as int)
    }

    /// Whole seconds since the Unix epoch, rounded down.
    pub closed spec fn seconds(self) -> int {
        self.secs as int
    }

    /// Nanoseconds past the whole second.
    pub closed spec fn nanos(self) -> int {
        self.nanos as int
    }

    /// The instant made of `secs` whole seconds and `nanos` nanoseconds, if
    /// a UTC date-time can hold it.
    pub fn from_parts(secs: i64, nanos: u32) -> (r: Option<AbsoluteTime>)
        ensures
            r is Some <==> valid_instant(secs as int, nanos as int),
            r matches Some(t) ==> t.seconds() == secs && t.nanos() == nanos,
    {
        if nanos < NANOS_PER_SEC && utc_accepts(secs, nanos) {
            Some(AbsoluteTime { secs, nanos })
        } else {
            None
        }
    }

    /// Whole seconds since the Unix epoch.
    pub fn timestamp(&self) -> (r: i64)
        ensures
            r == self.seconds(),
            valid_instant(self.seconds(), self.nanos()),
    {
        proof {
            use_type_invariant(self);
        }
        self.secs
    }

    /// Nanoseconds past the whole second.
    pub fn timestamp_subsec_nanos(&self) -> (r: u32)
        ensures
            r == self.nanos(),
            valid_instant(self.seconds(), self.nanos()),
    {
        proof {
            use_type_invariant(self);
        }
        self.nanos
    }
}

/// The instant that `value` counts of `unit` after the epoch make, as
/// whole seconds (rounded down) and the nanoseconds past them.
pub open spec fn split_timestamp(value: int, unit: TimestampUnit) -> (int, int) {
    (value / unit.per_second(), (value % unit.per_second()) * unit.nanos_per_unit())
}

/// The count of `unit` after the epoch at which an instant lies, rounded
/// down.
pub open spec fn join_timestamp(secs: int, nanos: int, unit: TimestampUnit) -> int {
    secs * unit.per_second() + nanos / unit.nanos_per_unit()
}

/// Reads `value` as a count of `unit` since the Unix epoch.
pub fn decode_timestamp(value: i64, unit: TimestampUnit) -> (r: Result<AbsoluteTime, ConversionError>)
    ensures
        ({
            let (s, n) = split_timestamp(value as int, unit);
            match r {
                Ok(t) => valid_instant(s, n) && t.seconds() == s && t.nanos() == n,
                Err(e) => !valid_instant(s, n) && e == (ConversionError::TimestampOutOfRange { value }),
            }
        }),
{
    let per = unit.units_per_second();
    let secs = value.checked_div_euclid(per).unwrap();
    let rem = value.checked_rem_euclid(per).unwrap();
    let step = unit.nanos_per_one();
    assert(0 <= rem < per);
    assert(rem * step < 1_000_000_000) by (nonlinear_arith)
        requires
            0 <= rem < per,
            per * step == 1_000_000_000,
    ;
    let nanos = rem as u32 * step;
    match AbsoluteTime::from_parts(secs, nanos) {
        Some(t) => Ok(t),
        None => Err(ConversionError::TimestampOutOfRange { value }),
    }
}

/// The count of `unit` after the Unix epoch at which `time` lies, rounded
/// down to a whole unit.
pub fn encode_timestamp(time: &AbsoluteTime, unit: TimestampUnit) -> (r: i64)
    ensures
        r == join_timestamp(time.seconds(), time.nanos(), unit),
{
    let secs = time.timestamp();
    let nanos = time.timestamp_subsec_nanos();
    let per = unit.units_per_second();
    let step = unit.nanos_per_one();
    assert(-9_223_372_036_854_775_808 <= secs * per + nanos / step <= 9_223_372_036_854_775_807)
        by (nonlinear_arith)
        requires
            MIN_UTC_SECS <= secs <= MAX_UTC_SECS,
            0 <= nanos < 1_000_000_000,
            1 <= per <= 1_000_000,
            1_000 <= step,
            0 <= nanos / step < 1_000_000,
    ;
    secs * per + (nanos / step) as i64
}

/// What a decimal timestamp text gives: the instant as whole seconds and
/// nanoseconds, or the failure.
pub open spec fn timestamp_of_text(text: Seq<char>, unit: TimestampUnit) -> Result<(int, int), ConversionError> {
    match parse_i64_spec(text) {
        Err(kind) => Err(ConversionError::ParseInt(kind)),
        Ok(v) => {
            let p = split_timestamp(v as int, unit);
            if valid_instant(p.0, p.1) {
                Ok(p)
            } else {
                Err(ConversionError::TimestampOutOfRange { value: v })
            }
        },
    }
}

/// Whether `t` is the instant of `p` whole seconds and nanoseconds.
pub open spec fn is_instant(t: AbsoluteTime, p: (int, int)) -> bool {
    t.seconds() == p.0 && t.nanos() == p.1
}

/// Whether a result holds the instant, or the failure, that `expected` gives.
pub open spec fn instant_result(r: Result<AbsoluteTime, ConversionError>, expected: Result<(int, int), ConversionError>) -> bool {
    match expected {
        Ok(p) => r matches Ok(t) && is_instant(t, p),
        Err(e) => r == Err::<AbsoluteTime, ConversionError>(e),
    }
}

/// Reads a decimal text as a count of `unit` since the Unix epoch.
pub fn parse_timestamp(text: &str, unit: TimestampUnit) -> (r: Result<AbsoluteTime, ConversionError>)
    ensures
        instant_result(r, timestamp_of_text(text@, unit)),
{
    match decode_integer(text) {
        Err(kind) => Err(ConversionError::ParseInt(kind)),
        Ok(v) => decode_timestamp(v, unit),
    }
}

/// Decoding a timestamp and encoding the instant in the same unit gives
/// back the timestamp, for every unit and for timestamps before the epoch
/// too.
pub proof fn lemma_timestamp_round_trip(value: i64, unit: TimestampUnit)
    requires
        valid_instant(split_timestamp(value as int, unit).0, split_timestamp(value as int, unit).1),
    ensures
        join_timestamp(split_timestamp(value as int, unit).0, split_timestamp(value as int, unit).1, unit)
            == value,
{
    let p = unit.per_second();
    let q = unit.nanos_per_unit();
    let v = value as int;
    assert(p * q == 1_000_000_000);
    assert(0 <= v % p < p);
    assert(v == (v / p) * p + v % p) by (nonlinear_arith)
        requires p > 0;
    assert(((v % p) * q) / q == v % p) by (nonlinear_arith)
        requires q > 0, 0 <= v % p;
}

} // verus!
