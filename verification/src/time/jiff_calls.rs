//! The calls into Jiff that the conversions make.
//!
//! Each function here is believed, not proved: its contract states what
//! Jiff's source shows of the function it calls.
//!
//! What a time zone answers (its offsets, abbreviations, DST state, name and
//! resolution of local times) depends on the zone's rules, which Verus cannot
//! see. It depends on nothing else: a `jiff::tz::TimeZone` is an immutable
//! value, so each such answer is given a name below, applied to the zone and
//! to the other arguments of the call.
//!
//! Spec equality of zones is used only against the zones that
//! `TimeZone::fixed` makes. Jiff represents `TimeZone::UTC` and a fixed
//! offset as a bare tag (with the offset), and its `PartialEq` compares such
//! zones by tag and offset alone, so `==` in Rust and in specifications agree
//! there.

use vstd::prelude::*;

use crate::time::jiff_time::{
    timestamp_new_ok, timestamp_normalized, utc_instant, valid_civil, CivilFields, JiffTimestamp,
    JIFF_MAX_OFFSET_SECONDS,
};

verus! {

/// `jiff::tz::TimeZone::fixed` of the offset of `seconds` (for a zero
/// offset this is `TimeZone::UTC`).
pub uninterp spec fn jiff_fixed_zone(seconds: i32) -> jiff::tz::TimeZone;

/// The seconds of `time_zone.to_fixed_offset()`; `None` for a zone with
/// more than one offset.
pub uninterp spec fn tz_fixed_offset_of(time_zone: jiff::tz::TimeZone) -> Option<i32>;

/// `time_zone.iana_name()`.
pub uninterp spec fn tz_iana(time_zone: jiff::tz::TimeZone) -> Option<Seq<char>>;

/// The seconds of `time_zone.to_ambiguous_timestamp(datetime).unambiguous()`
/// for the civil datetime of the fields (no fractional second); `None` where
/// Jiff refuses it (a gap, a fold, or an instant outside its range).
pub uninterp spec fn tz_local_instant(
    time_zone: jiff::tz::TimeZone,
    year: i16,
    month: i8,
    day: i8,
    hour: i8,
    minute: i8,
    second: i8,
) -> Option<i64>;

/// `time_zone.to_offset_info(timestamp).offset().seconds()` at the timestamp
/// of these components.
pub uninterp spec fn tz_offset(time_zone: jiff::tz::TimeZone, second: i64, nanosecond: i32) -> i32;

/// `time_zone.to_offset_info(timestamp).abbreviation()` at the timestamp of
/// these components.
pub uninterp spec fn tz_abbr(time_zone: jiff::tz::TimeZone, second: i64, nanosecond: i32) -> Seq<char>;

/// `time_zone.to_offset_info(timestamp).dst().is_dst()` at the timestamp of
/// these components.
pub uninterp spec fn tz_dst(time_zone: jiff::tz::TimeZone, second: i64, nanosecond: i32) -> bool;

/// Calls `jiff::Timestamp::new(second, nanosecond)` and reads the timestamp
/// back with `as_second` and `subsec_nanosecond`. Jiff refuses seconds
/// outside its range, nanoseconds of a second or more in magnitude, and
/// negative nanoseconds at the minimal second; it moves one second into the
/// nanoseconds when their signs differ (jiff-core's `Timestamp::new`).
#[verifier::external_body]
pub(crate) fn timestamp_new(second: i64, nanosecond: i32) -> (r: Option<JiffTimestamp>)
    ensures
        r is Some <==> timestamp_new_ok(second as int, nanosecond as int),
        r matches Some(t) ==> t == timestamp_normalized(second, nanosecond),
{
    match jiff::Timestamp::new(second, nanosecond) {
        Ok(t) => Some(JiffTimestamp { second: t.as_second(), nanosecond: t.subsec_nanosecond() }),
        Err(_) => None,
    }
}

/// Calls `jiff::civil::DateTime::new` with the fields and no fractional
/// second: `None` when Jiff accepts them, otherwise the text of Jiff's
/// error. Jiff accepts exactly the fields its documentation lists (years
/// `-9999..=9999`, a month, a day of that month, hours, minutes and seconds
/// in their ranges). The text of the error is Jiff's and is not stated.
#[verifier::external_body]
pub(crate) fn civil_datetime_error(f: CivilFields) -> (r: Option<String>)
    ensures
        r is None <==> valid_civil(f),
{
    match jiff::civil::DateTime::new(f.year, f.month, f.day, f.hour, f.minute, f.second, 0) {
        Ok(_) => None,
        Err(err) => Some(err.to_string()),
    }
}

/// Calls `jiff::tz::Offset::UTC.to_timestamp` on the civil datetime of the
/// fields: the seconds since the epoch of that UTC civil time
/// ([`utc_instant`]), or `None` where they lie outside Jiff's range
/// (jiff-core's `Offset::to_timestamp`). The timestamp has no fractional
/// second.
#[verifier::external_body]
pub(crate) fn utc_civil_timestamp(f: CivilFields) -> (r: Option<JiffTimestamp>)
    requires
        valid_civil(f),
    ensures
        r is Some <==> utc_instant(f) is Some,
        r matches Some(t) ==> t.wf() && t.nanosecond == 0 && Some(t.second) == utc_instant(f),
{
    let dt = jiff::civil::DateTime::new(f.year, f.month, f.day, f.hour, f.minute, f.second, 0).unwrap();
    match jiff::tz::Offset::UTC.to_timestamp(dt) {
        Ok(t) => Some(JiffTimestamp { second: t.as_second(), nanosecond: t.subsec_nanosecond() }),
        Err(_) => None,
    }
}

/// Calls `time_zone.to_ambiguous_timestamp(datetime).unambiguous()` for the
/// civil datetime of the fields: the instant, named [`tz_local_instant`], or
/// the text of Jiff's error when the local time falls in a gap or fold of the
/// zone. The datetime has no fractional second and offsets are whole
/// seconds, so neither has the instant. The text of the error is Jiff's and
/// is not stated.
#[verifier::external_body]
pub(crate) fn tz_resolve_local(time_zone: &jiff::tz::TimeZone, f: CivilFields) -> (r: Result<JiffTimestamp, String>)
    requires
        valid_civil(f),
    ensures
        r is Ok <==> tz_local_instant(*time_zone, f.year, f.month, f.day, f.hour, f.minute, f.second) is Some,
        r matches Ok(t) ==> t.wf() && t.nanosecond == 0
            && Some(t.second) == tz_local_instant(*time_zone, f.year, f.month, f.day, f.hour, f.minute, f.second),
{
    let dt = jiff::civil::DateTime::new(f.year, f.month, f.day, f.hour, f.minute, f.second, 0).unwrap();
    match time_zone.to_ambiguous_timestamp(dt).unambiguous() {
        Ok(t) => Ok(JiffTimestamp { second: t.as_second(), nanosecond: t.subsec_nanosecond() }),
        Err(err) => Err(err.to_string()),
    }
}

/// Calls `time_zone.to_offset_info(timestamp).offset().seconds()`: the
/// offset the zone applies at that instant, named [`tz_offset`], which Jiff
/// keeps within `-25:59:59..=25:59:59`.
#[verifier::external_body]
pub(crate) fn tz_offset_seconds(time_zone: &jiff::tz::TimeZone, timestamp: JiffTimestamp) -> (r: i32)
    requires
        timestamp.wf(),
    ensures
        r == tz_offset(*time_zone, timestamp.second, timestamp.nanosecond),
        -JIFF_MAX_OFFSET_SECONDS <= r <= JIFF_MAX_OFFSET_SECONDS,
{
    let ts = jiff::Timestamp::new(timestamp.second, timestamp.nanosecond).unwrap();
    time_zone.to_offset_info(ts).offset().seconds()
}

/// Calls `time_zone.to_offset_info(timestamp).abbreviation()`, named
/// [`tz_abbr`].
#[verifier::external_body]
pub(crate) fn tz_abbreviation(time_zone: &jiff::tz::TimeZone, timestamp: JiffTimestamp) -> (r: String)
    requires
        timestamp.wf(),
    ensures
        r@ == tz_abbr(*time_zone, timestamp.second, timestamp.nanosecond),
{
    let ts = jiff::Timestamp::new(timestamp.second, timestamp.nanosecond).unwrap();
    time_zone.to_offset_info(ts).abbreviation().to_owned()
}

/// Calls `time_zone.to_offset_info(timestamp).dst().is_dst()`, named
/// [`tz_dst`].
#[verifier::external_body]
pub(crate) fn tz_is_dst(time_zone: &jiff::tz::TimeZone, timestamp: JiffTimestamp) -> (r: bool)
    requires
        timestamp.wf(),
    ensures
        r == tz_dst(*time_zone, timestamp.second, timestamp.nanosecond),
{
    let ts = jiff::Timestamp::new(timestamp.second, timestamp.nanosecond).unwrap();
    time_zone.to_offset_info(ts).dst().is_dst()
}

/// Calls `time_zone.iana_name()`, named [`tz_iana`].
#[verifier::external_body]
pub(crate) fn tz_iana_name(time_zone: &jiff::tz::TimeZone) -> (r: Option<String>)
    ensures
        r is Some <==> tz_iana(*time_zone) is Some,
        r matches Some(n) ==> tz_iana(*time_zone) == Some(n@),
{
    match time_zone.iana_name() {
        Some(name) => Some(name.to_owned()),
        None => None,
    }
}

/// Whether `name` is `UTC` in any mix of ASCII letter cases.
pub open spec fn names_utc(name: Seq<char>) -> bool {
    &&& name.len() == 3
    &&& (name[0] == 'u' || name[0] == 'U')
    &&& (name[1] == 't' || name[1] == 'T')
    &&& (name[2] == 'c' || name[2] == 'C')
}

/// Calls `jiff::tz::TimeZone::get(name)`, which reads the time zone
/// database of the system; `None` when Jiff finds no zone. Whether a zone
/// is found depends on that database, which the library does not see, and
/// is not stated; with no database at all Jiff finds none, not even `UTC`.
/// A zone found for a name that is `UTC` in any letter case is
/// `TimeZone::UTC` (jiff's `special_time_zone`, which each database
/// consults first).
#[verifier::external_body]
pub(crate) fn tz_get(name: &str) -> (r: Option<jiff::tz::TimeZone>)
    ensures
        names_utc(name@) ==> (r matches Some(tz) ==> tz == jiff_fixed_zone(0i32)),
{
    match jiff::tz::TimeZone::get(name) {
        Ok(time_zone) => Some(time_zone),
        Err(_) => None,
    }
}

/// Compares `time_zone` with `jiff::tz::TimeZone::UTC`, which is
/// [`jiff_fixed_zone`] of a zero offset (`TimeZone::fixed` returns `UTC`
/// for it).
#[verifier::external_body]
pub(crate) fn tz_is_utc(time_zone: &jiff::tz::TimeZone) -> (r: bool)
    ensures
        r == (*time_zone == jiff_fixed_zone(0i32)),
{
    time_zone == &jiff::tz::TimeZone::UTC
}

/// Calls `time_zone.to_fixed_offset()`: the seconds of the zone's offset
/// when it has a single one, named [`tz_fixed_offset_of`], which Jiff keeps
/// within `-25:59:59..=25:59:59`.
#[verifier::external_body]
pub(crate) fn tz_fixed_offset(time_zone: &jiff::tz::TimeZone) -> (r: Option<i32>)
    ensures
        r == tz_fixed_offset_of(*time_zone),
        r matches Some(s) ==> -JIFF_MAX_OFFSET_SECONDS <= s <= JIFF_MAX_OFFSET_SECONDS,
{
    match time_zone.to_fixed_offset() {
        Ok(offset) => Some(offset.seconds()),
        Err(_) => None,
    }
}

/// Compares `time_zone` with `jiff::tz::TimeZone::fixed` of the offset of
/// `seconds`, [`jiff_fixed_zone`].
#[verifier::external_body]
pub(crate) fn tz_is_fixed(time_zone: &jiff::tz::TimeZone, seconds: i32) -> (r: bool)
    requires
        -JIFF_MAX_OFFSET_SECONDS <= seconds <= JIFF_MAX_OFFSET_SECONDS,
    ensures
        r == (*time_zone == jiff_fixed_zone(seconds)),
{
    let offset = jiff::tz::Offset::from_seconds(seconds).unwrap();
    time_zone == &jiff::tz::TimeZone::fixed(offset)
}

/// Returns `jiff::tz::TimeZone::UTC`: [`jiff_fixed_zone`] of a zero offset,
/// whose `to_fixed_offset` is zero.
#[verifier::external_body]
pub(crate) fn tz_utc() -> (r: jiff::tz::TimeZone)
    ensures
        r == jiff_fixed_zone(0i32),
        tz_fixed_offset_of(r) == Some(0i32),
{
    jiff::tz::TimeZone::UTC
}

/// Calls `jiff::tz::TimeZone::fixed` with the offset of `seconds`, named
/// [`jiff_fixed_zone`]; the zone's `to_fixed_offset` is that offset.
#[verifier::external_body]
pub(crate) fn tz_fixed(seconds: i32) -> (r: jiff::tz::TimeZone)
    requires
        -JIFF_MAX_OFFSET_SECONDS <= seconds <= JIFF_MAX_OFFSET_SECONDS,
    ensures
        r == jiff_fixed_zone(seconds),
        tz_fixed_offset_of(r) == Some(seconds),
{
    jiff::tz::TimeZone::fixed(jiff::tz::Offset::from_seconds(seconds).unwrap())
}

/// Calls `jiff::tz::Offset::from_seconds(seconds)` and reads the offset
/// back with `seconds()`: Jiff accepts `-93,599..=93,599` and keeps the
/// value. On refusal, the text of Jiff's error, which is not stated.
#[verifier::external_body]
pub(crate) fn offset_from_seconds(seconds: i32) -> (r: Result<i32, String>)
    ensures
        r is Ok <==> -JIFF_MAX_OFFSET_SECONDS <= seconds <= JIFF_MAX_OFFSET_SECONDS,
        r matches Ok(s) ==> s == seconds,
{
    match jiff::tz::Offset::from_seconds(seconds) {
        Ok(offset) => Ok(offset.seconds()),
        Err(err) => Err(err.to_string()),
    }
}

} // verus!
