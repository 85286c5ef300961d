//! The calls into `chrono` that the conversions make.
//!
//! Each function here is believed, not proved: its contract states what
//! chrono's source shows of the functions it calls.

use vstd::prelude::*;

use crate::time::chrono_time::{
    time_delta_ok, whole_seconds_toward_zero, ChronoUtc, CHRONO_MAX_SECS, CHRONO_MIN_SECS,
};

verus! {

/// Rebuilds the `DateTime<Utc>` of `t` with `DateTime::from_timestamp` and
/// returns `num_seconds()` and `subsec_nanos()` of
/// `signed_duration_since(DateTime::<Utc>::UNIX_EPOCH)`. chrono measures
/// that `TimeDelta` as `t.secs` seconds plus `t.nanos` nanoseconds (a leap
/// second counting as the start of the next second), and splits it into
/// whole seconds rounded toward zero and the nanoseconds that remain, which
/// carry the sign of the delta.
#[verifier::external_body]
pub(crate) fn since_epoch(t: ChronoUtc) -> (r: (i64, i32))
    requires
        t.wf(),
    ensures
        r.0 == whole_seconds_toward_zero(t.secs * 1_000_000_000 + t.nanos),
        r.1 == (t.secs * 1_000_000_000 + t.nanos)
            - whole_seconds_toward_zero(t.secs * 1_000_000_000 + t.nanos) * 1_000_000_000,
{
    let dt = chrono::DateTime::from_timestamp(t.secs, t.nanos).unwrap();
    let delta = dt.signed_duration_since(chrono::DateTime::<chrono::Utc>::UNIX_EPOCH);
    (delta.num_seconds(), delta.subsec_nanos())
}

/// Calls `chrono::TimeDelta::new(secs, nanos)` and, when chrono accepts
/// them, adds the delta to `DateTime::<Utc>::UNIX_EPOCH` with `+`, reading the
/// result back with `timestamp()` and `timestamp_subsec_nanos()`: the
/// delta's seconds and nanoseconds. chrono refuses nanoseconds of a second
/// or more and deltas beyond `i64::MAX` milliseconds either way; the
/// addition panics when the result leaves chrono's range of dates, which
/// `requires` rules out.
#[verifier::external_body]
pub(crate) fn epoch_plus(secs: i64, nanos: u32) -> (r: Option<ChronoUtc>)
    requires
        time_delta_ok(secs as int, nanos as int) ==> CHRONO_MIN_SECS <= secs <= CHRONO_MAX_SECS,
    ensures
        r is Some <==> time_delta_ok(secs as int, nanos as int),
        r matches Some(t) ==> t.secs == secs && t.nanos == nanos,
{
    match chrono::TimeDelta::new(secs, nanos) {
        Some(delta) => {
            let dt = chrono::DateTime::<chrono::Utc>::UNIX_EPOCH + delta;
            Some(ChronoUtc { secs: dt.timestamp(), nanos: dt.timestamp_subsec_nanos() })
        },
        None => None,
    }
}

/// Calls `chrono::FixedOffset::east_opt(seconds)` and reads the offset back
/// with `local_minus_utc()`: chrono accepts offsets strictly between
/// `-86_400` and `86_400` seconds and keeps the value.
#[verifier::external_body]
pub(crate) fn east_opt(seconds: i32) -> (r: Option<i32>)
    ensures
        r is Some <==> -86_400 < seconds < 86_400,
        r matches Some(s) ==> s == seconds,
{
    match chrono::FixedOffset::east_opt(seconds) {
        Some(offset) => Some(offset.local_minus_utc()),
        None => None,
    }
}

} // verus!
