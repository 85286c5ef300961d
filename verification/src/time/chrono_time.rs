//! Conversions between Ruby `Time` and `chrono`'s `DateTime<Utc>` and
//! `DateTime<FixedOffset>`.
//!
//! A `DateTime` is handled here as the instant it holds, as chrono reports it
//! (`timestamp()` and `timestamp_subsec_nanos()`), and, for a fixed offset,
//! the offset (`local_minus_utc()`): [`ChronoUtc`] and [`ChronoFixed`].

use vstd::prelude::*;

use vstd::arithmetic::div_mod::lemma_fundamental_div_mod_converse;

use crate::error::{Error, ExceptionClass};
use crate::time::chrono_calls::{east_opt, epoch_plus, since_epoch};
use crate::time::{offset_in_range, ruby_timespec, Offset, OffsetType, Timespec};

verus! {

/// The earliest second of a chrono `DateTime<Utc>` (`MIN_UTC.timestamp()`).
pub const CHRONO_MIN_SECS: i64 = -8_334_601_228_800;

/// The latest second of a chrono `DateTime<Utc>` (`MAX_UTC.timestamp()`).
pub const CHRONO_MAX_SECS: i64 = 8_210_266_876_799;

/// The seconds of `chrono::TimeDelta::MIN`.
pub const TIME_DELTA_MIN_SECS: i64 = -9_223_372_036_854_776;

/// The nanoseconds of `chrono::TimeDelta::MIN`.
pub const TIME_DELTA_MIN_NANOS: u32 = 193_000_000;

/// The seconds of `chrono::TimeDelta::MAX`.
pub const TIME_DELTA_MAX_SECS: i64 = 9_223_372_036_854_775;

/// The nanoseconds of `chrono::TimeDelta::MAX`.
pub const TIME_DELTA_MAX_NANOS: u32 = 807_000_000;

/// Whether `chrono::TimeDelta::new(secs, nanos)` succeeds.
pub open spec fn time_delta_ok(secs: int, nanos: int) -> bool {
    !(secs < TIME_DELTA_MIN_SECS || secs > TIME_DELTA_MAX_SECS || nanos >= 1_000_000_000
        || (secs == TIME_DELTA_MAX_SECS && nanos > TIME_DELTA_MAX_NANOS)
        || (secs == TIME_DELTA_MIN_SECS && nanos < TIME_DELTA_MIN_NANOS))
}

/// The whole seconds in `total` nanoseconds, rounded toward zero.
pub open spec fn whole_seconds_toward_zero(total: int) -> int {
    if total >= 0 {
        total / 1_000_000_000
    } else {
        -((-total) / 1_000_000_000)
    }
}

/// A chrono `DateTime<Utc>`: the instant it holds.
#[derive(Clone, Copy, Debug, PartialEq, Eq, Structural)]
pub struct ChronoUtc {
    /// `timestamp()`: seconds since the epoch.
    pub secs: i64,
    /// `timestamp_subsec_nanos()`: nanoseconds beyond them, at least one
    /// second during a leap second.
    pub nanos: u32,
}

impl ChronoUtc {
    /// What every `DateTime<Utc>` satisfies: it lies in chrono's range, and
    /// only a second ending a minute can be a leap second.
    pub open spec fn wf(&self) -> bool {
        &&& CHRONO_MIN_SECS <= self.secs <= CHRONO_MAX_SECS
        &&& self.nanos < 2_000_000_000
        &&& self.nanos >= 1_000_000_000 ==> self.secs % 60 == 59
    }
}

/// A chrono `DateTime<FixedOffset>`: its instant and its offset.
#[derive(Clone, Copy, Debug, PartialEq, Eq, Structural)]
pub struct ChronoFixed {
    /// The instant.
    pub utc: ChronoUtc,
    /// `offset().local_minus_utc()`: seconds east of UTC.
    pub offset_seconds: i32,
}

impl ChronoFixed {
    /// What every `DateTime<FixedOffset>` satisfies: a chrono instant, and an
    /// offset of less than a day.
    pub open spec fn wf(&self) -> bool {
        &&& self.utc.wf()
        &&& -86_400 < self.offset_seconds < 86_400
    }
}

/// The timespec of the Ruby `Time` for a `DateTime<Utc>`: the whole seconds
/// of its distance from the epoch, rounded toward zero, and the nanoseconds
/// that remain, which are negative before the epoch.
pub fn timespec_from_chrono_utc(dt: ChronoUtc) -> (ts: Timespec)
    requires
        dt.wf(),
    ensures
        ts.tv_sec == whole_seconds_toward_zero(dt.secs * 1_000_000_000 + dt.nanos),
        ts.tv_nsec == (dt.secs * 1_000_000_000 + dt.nanos) - ts.tv_sec * 1_000_000_000,
{
    let (secs, nanos) = since_epoch(dt);
    Timespec { tv_sec: secs, tv_nsec: nanos as i64 }
}

/// What `time_timespec_new` gets for a `DateTime<Utc>`: its timespec, in UTC.
pub fn chrono_utc_time_args(dt: ChronoUtc) -> (r: (Timespec, Offset))
    requires
        dt.wf(),
    ensures
        r.0 == timespec_from_chrono_utc_spec(dt),
        r.1@ == OffsetType::Utc,
{
    (timespec_from_chrono_utc(dt), Offset::utc())
}

/// The timespec that [`timespec_from_chrono_utc`] returns.
pub open spec fn timespec_from_chrono_utc_spec(dt: ChronoUtc) -> Timespec {
    let total = dt.secs * 1_000_000_000 + dt.nanos;
    let secs = whole_seconds_toward_zero(total);
    Timespec { tv_sec: secs as i64, tv_nsec: (total - secs * 1_000_000_000) as i64 }
}

/// What `time_timespec_new` gets for a `DateTime<FixedOffset>`: its
/// timespec, at its offset, which Ruby always accepts.
pub fn chrono_fixed_time_args(dt: ChronoFixed) -> (r: (Timespec, Offset))
    requires
        dt.wf(),
    ensures
        r.0 == timespec_from_chrono_utc_spec(dt.utc),
        r.1@ == OffsetType::Offset(dt.offset_seconds) && offset_in_range(dt.offset_seconds as int),
{
    let ts = timespec_from_chrono_utc(dt.utc);
    match Offset::from_secs(dt.offset_seconds) {
        Ok(offset) => (ts, offset),
        Err(_) => {
            assert(false);
            (ts, Offset::utc())
        },
    }
}

/// The `DateTime<Utc>` of the Ruby `Time` whose timespec is `ts`: the epoch
/// plus `chrono::TimeDelta::new(tv_sec, tv_nsec as u32)`; an `ArgumentError`
/// `"time out of range"` when chrono refuses that delta. The addition
/// panics beyond chrono's dates, which `requires` rules out.
pub fn chrono_utc_from_timespec(ts: Timespec) -> (r: Result<ChronoUtc, Error>)
    requires
        time_delta_ok(ts.tv_sec as int, (ts.tv_nsec as u32) as int)
            ==> CHRONO_MIN_SECS <= ts.tv_sec <= CHRONO_MAX_SECS,
    ensures
        r is Ok <==> time_delta_ok(ts.tv_sec as int, (ts.tv_nsec as u32) as int),
        r matches Ok(dt) ==> dt.secs == ts.tv_sec && dt.nanos == ts.tv_nsec as u32 && dt.wf(),
        r matches Err(e) ==> e.class == ExceptionClass::ArgError && e.message@ == "time out of range"@,
{
    let nanos: u32 = ts.tv_nsec as u32;
    match epoch_plus(ts.tv_sec, nanos) {
        Some(dt) => Ok(dt),
        None => Err(Error::new(ExceptionClass::ArgError, String::from_str("time out of range"))),
    }
}

/// The `DateTime<FixedOffset>` of the Ruby `Time` whose `utc_offset` is
/// `offset` and whose timespec is `ts`: the errors of
/// [`chrono_utc_from_timespec`] first, then an `ArgumentError`
/// `"invalid UTC offset"` when chrono refuses the offset.
pub fn chrono_fixed_from_timespec(offset: i32, ts: Timespec) -> (r: Result<ChronoFixed, Error>)
    requires
        time_delta_ok(ts.tv_sec as int, (ts.tv_nsec as u32) as int)
            ==> CHRONO_MIN_SECS <= ts.tv_sec <= CHRONO_MAX_SECS,
    ensures
        r is Ok <==> time_delta_ok(ts.tv_sec as int, (ts.tv_nsec as u32) as int)
            && -86_400 < offset < 86_400,
        r matches Ok(dt) ==> dt.utc.secs == ts.tv_sec && dt.utc.nanos == ts.tv_nsec as u32
            && dt.offset_seconds == offset && dt.wf(),
        !time_delta_ok(ts.tv_sec as int, (ts.tv_nsec as u32) as int) ==> (r matches Err(e)
            && e.class == ExceptionClass::ArgError && e.message@ == "time out of range"@),
        time_delta_ok(ts.tv_sec as int, (ts.tv_nsec as u32) as int) && !(-86_400 < offset < 86_400)
            ==> (r matches Err(e) && e.class == ExceptionClass::ArgError
            && e.message@ == "invalid UTC offset"@),
{
    let utc = chrono_utc_from_timespec(ts)?;
    match east_opt(offset) {
        Some(offset_seconds) => Ok(ChronoFixed { utc, offset_seconds }),
        None => Err(Error::new(ExceptionClass::ArgError, String::from_str("invalid UTC offset"))),
    }
}

/// A `DateTime<Utc>` outside a leap second comes back unchanged from the
/// Ruby `Time` made for it.
pub proof fn lemma_chrono_utc_round_trip(dt: ChronoUtc)
    requires
        dt.wf(),
        dt.nanos < 1_000_000_000,
    ensures
        ({
            let ts = timespec_from_chrono_utc_spec(dt);
            let (sec, nsec) = ruby_timespec(ts.tv_sec as int, ts.tv_nsec as int);
            &&& sec == dt.secs
            &&& nsec == dt.nanos
            &&& time_delta_ok(sec, nsec)
        }),
{
    let total = dt.secs * 1_000_000_000 + dt.nanos;
    let secs = whole_seconds_toward_zero(total);
    if total < 0 {
        if dt.nanos == 0 {
            lemma_fundamental_div_mod_converse(-total, 1_000_000_000, -dt.secs, 0);
        } else {
            lemma_fundamental_div_mod_converse(-total, 1_000_000_000, -dt.secs - 1, 1_000_000_000 - dt.nanos);
        }
    }
    lemma_fundamental_div_mod_converse(total, 1_000_000_000, dt.secs as int, dt.nanos as int);
}

/// A `DateTime<FixedOffset>` outside a leap second comes back unchanged
/// from the Ruby `Time` made for it, whose `utc_offset` is the offset it was
/// made with.
pub proof fn lemma_chrono_fixed_round_trip(dt: ChronoFixed)
    requires
        dt.wf(),
        dt.utc.nanos < 1_000_000_000,
    ensures
        ({
            let ts = timespec_from_chrono_utc_spec(dt.utc);
            let (sec, nsec) = ruby_timespec(ts.tv_sec as int, ts.tv_nsec as int);
            &&& sec == dt.utc.secs
            &&& nsec == dt.utc.nanos
            &&& time_delta_ok(sec, nsec)
            &&& -86_400 < dt.offset_seconds < 86_400
        }),
{
    lemma_chrono_utc_round_trip(dt.utc);
}

} // verus!
