//! Conversions between Ruby `Time` and Jiff's timestamps and zoned times.
//!
//! A `jiff::Timestamp` is handled here as [`JiffTimestamp`]: the seconds and
//! nanoseconds that `Timestamp::as_second` and `Timestamp::subsec_nanosecond`
//! report, which is all the conversions read from it. Jiff's time zones stay
//! `jiff::tz::TimeZone` values; their rules are only ever consulted through
//! Jiff (see [`crate::time::jiff_calls`]).
//!
//! Ruby-to-Jiff conversion raises `RangeError` with `"out of Time range"` for
//! values outside Jiff's supported timestamp range. Local times in timezone
//! gaps or folds raise `ArgumentError`. If Ruby cannot represent a Jiff
//! offset, the conversion warns and returns the same instant in UTC.

use vstd::prelude::*;

use vstd::arithmetic::div_mod::lemma_fundamental_div_mod_converse;

use crate::error::{Error, ExceptionClass};
use crate::time::jiff_calls::{
    civil_datetime_error, jiff_fixed_zone, names_utc, offset_from_seconds, timestamp_new, tz_abbr,
    tz_abbreviation, tz_dst, tz_fixed, tz_fixed_offset, tz_fixed_offset_of, tz_get, tz_iana,
    tz_iana_name, tz_is_dst, tz_is_fixed, tz_is_utc, tz_local_instant, tz_offset,
    tz_offset_seconds, tz_resolve_local, tz_utc, utc_civil_timestamp,
};
use crate::time::{
    offset_c_int, offset_error_message, offset_in_range, ruby_timespec, Offset, OffsetType, Timespec,
};

verus! {

#[verifier::external_type_specification]
#[verifier::external_body]
pub struct ExTimeZone(jiff::tz::TimeZone);

/// The smallest second of a Jiff timestamp (`Timestamp::MIN.as_second()`).
pub const JIFF_MIN_SECOND: i64 = -377_705_023_201;

/// The largest second of a Jiff timestamp (`Timestamp::MAX.as_second()`).
pub const JIFF_MAX_SECOND: i64 = 253_402_207_200;

/// The largest magnitude, in seconds, of a Jiff offset (`25:59:59`).
pub const JIFF_MAX_OFFSET_SECONDS: i32 = 93_599;

/// Nanoseconds in one second, as the denominator of the `Rational` that
/// places a zoned time on Ruby's time line.
pub const NANOS_PER_SECOND_WIDE: i128 = 1_000_000_000;

/// Whether `Timestamp::new(second, nanosecond)` succeeds: the seconds lie
/// within Jiff's range, the nanoseconds are less than one second in
/// magnitude, and the minimal second has no negative nanoseconds.
pub open spec fn timestamp_new_ok(second: int, nanosecond: int) -> bool {
    &&& JIFF_MIN_SECOND <= second <= JIFF_MAX_SECOND
    &&& -999_999_999 <= nanosecond <= 999_999_999
    &&& second == JIFF_MIN_SECOND ==> nanosecond >= 0
}

/// The timestamp `Timestamp::new(second, nanosecond)` makes: when the two
/// components have opposite signs, one second is moved into the nanoseconds
/// so that both carry the sign of the instant.
pub open spec fn timestamp_normalized(second: i64, nanosecond: i32) -> JiffTimestamp {
    if nanosecond == 0 || second == 0 || (second < 0) == (nanosecond < 0) {
        JiffTimestamp { second, nanosecond }
    } else if second < 0 {
        JiffTimestamp { second: (second + 1) as i64, nanosecond: (nanosecond - 1_000_000_000) as i32 }
    } else {
        JiffTimestamp { second: (second - 1) as i64, nanosecond: (nanosecond + 1_000_000_000) as i32 }
    }
}

/// An instant as Jiff represents it: whole seconds and the nanoseconds
/// beyond them since the UNIX epoch.
#[derive(Clone, Copy, Debug, PartialEq, Eq, Structural)]
pub struct JiffTimestamp {
    /// `Timestamp::as_second`
    pub second: i64,
    /// `Timestamp::subsec_nanosecond`
    pub nanosecond: i32,
}

impl JiffTimestamp {
    /// What every `jiff::Timestamp` satisfies: it lies in Jiff's range, and
    /// its two components never have opposite signs.
    pub open spec fn wf(&self) -> bool {
        &&& timestamp_new_ok(self.second as int, self.nanosecond as int)
        &&& self.second < 0 ==> self.nanosecond <= 0
        &&& self.second > 0 ==> self.nanosecond >= 0
    }

    /// The instant in nanoseconds since the epoch.
    pub open spec fn nanoseconds(&self) -> int {
        self.second * 1_000_000_000 + self.nanosecond
    }

    /// The whole seconds of the instant, rounded down (Jiff's own
    /// `second` is rounded toward zero).
    pub open spec fn floor_second(&self) -> int {
        if self.nanosecond < 0 {
            self.second - 1
        } else {
            self.second as int
        }
    }

    /// The whole seconds of the instant, rounded down, as Ruby counts them.
    pub fn whole_seconds_floor(&self) -> (s: i64)
        requires
            self.wf(),
        ensures
            s == self.floor_second(),
    {
        if self.nanosecond < 0 {
            self.second - 1
        } else {
            self.second
        }
    }

    /// The timestamp `jiff::Timestamp::new(second, nanosecond)` makes;
    /// `None` where Jiff refuses the components.
    pub fn new(second: i64, nanosecond: i32) -> (r: Option<JiffTimestamp>)
        ensures
            r is Some <==> timestamp_new_ok(second as int, nanosecond as int),
            r matches Some(t) ==> t == timestamp_normalized(second, nanosecond) && t.wf(),
    {
        timestamp_new(second, nanosecond)
    }

    /// The instant in nanoseconds since the epoch
    /// (`Timestamp::as_nanosecond`).
    pub fn as_nanosecond(&self) -> (n: i128)
        requires
            self.wf(),
        ensures
            n == self.nanoseconds(),
    {
        (self.second as i128) * NANOS_PER_SECOND_WIDE + (self.nanosecond as i128)
    }
}

/// The timespec of the Ruby `Time` made for a Jiff timestamp: its seconds
/// and its nanoseconds, as Jiff reports them.
pub fn timespec_from_jiff(t: JiffTimestamp) -> (ts: Timespec)
    ensures
        ts.tv_sec == t.second,
        ts.tv_nsec == t.nanosecond,
{
    Timespec { tv_sec: t.second, tv_nsec: t.nanosecond as i64 }
}

/// What `time_timespec_new` gets for a Jiff timestamp: its timespec, in
/// UTC, since a timestamp carries no timezone.
pub fn jiff_timestamp_time_args(t: JiffTimestamp) -> (r: (Timespec, Offset))
    ensures
        r.0.tv_sec == t.second,
        r.0.tv_nsec == t.nanosecond,
        r.1@ == OffsetType::Utc,
{
    (timespec_from_jiff(t), Offset::utc())
}

/// The `RangeError` raised for an instant that a conversion cannot represent.
pub fn out_of_range() -> (e: Error)
    ensures
        e.class == ExceptionClass::RangeError,
        e.message@ == "out of Time range"@,
{
    Error::new(ExceptionClass::RangeError, String::from_str("out of Time range"))
}

/// Converts the timespec of a Ruby `Time` to a Jiff timestamp; a
/// `RangeError` with `"out of Time range"` when the nanoseconds do not fit an
/// `i32` or Jiff refuses the instant.
pub fn jiff_timestamp_from_timespec(ts: Timespec) -> (r: Result<JiffTimestamp, Error>)
    ensures
        r is Ok <==> i32::MIN <= ts.tv_nsec <= i32::MAX
            && timestamp_new_ok(ts.tv_sec as int, ts.tv_nsec as int),
        r matches Ok(t) ==> t == timestamp_normalized(ts.tv_sec, ts.tv_nsec as i32) && t.wf(),
        r matches Err(e) ==> e.class == ExceptionClass::RangeError
            && e.message@ == "out of Time range"@,
{
    if ts.tv_nsec < i32::MIN as i64 || ts.tv_nsec > i32::MAX as i64 {
        return Err(out_of_range());
    }
    let nanoseconds: i32 = ts.tv_nsec as i32;
    match JiffTimestamp::new(ts.tv_sec, nanoseconds) {
        Some(t) => Ok(t),
        None => Err(out_of_range()),
    }
}

/// A Jiff timestamp comes back unchanged from the Ruby `Time` made for it:
/// Ruby's timespec of that `Time` converts back to the same timestamp.
pub proof fn lemma_jiff_timestamp_round_trip(t: JiffTimestamp)
    requires
        t.wf(),
    ensures
        ({
            let (sec, nsec) = ruby_timespec(t.second as int, t.nanosecond as int);
            &&& i64::MIN <= sec <= i64::MAX
            &&& 0 <= nsec < 1_000_000_000
            &&& timestamp_new_ok(sec, nsec)
            &&& timestamp_normalized(sec as i64, nsec as i32) == t
        }),
{
    let total = t.second * 1_000_000_000 + t.nanosecond;
    if t.nanosecond >= 0 {
        lemma_fundamental_div_mod_converse(total, 1_000_000_000, t.second as int, t.nanosecond as int);
    } else {
        lemma_fundamental_div_mod_converse(
            total,
            1_000_000_000,
            t.second - 1,
            t.nanosecond + 1_000_000_000,
        );
    }
}

/// Civil date and time fields, as CRuby's timezone callbacks hand them over
/// (`year`, `mon`, `mday`, `hour`, `min`, `sec`).
#[derive(Clone, Copy, Debug, PartialEq, Eq, Structural)]
pub struct CivilFields {
    pub year: i16,
    pub month: i8,
    pub day: i8,
    pub hour: i8,
    pub minute: i8,
    pub second: i8,
}

/// Whether `year` is a leap year of the proleptic Gregorian calendar.
pub open spec fn is_leap_year(year: int) -> bool {
    year % 4 == 0 && (year % 100 != 0 || year % 400 == 0)
}

/// The number of days of `month` in `year`.
pub open spec fn days_in_month(year: int, month: int) -> int {
    if month == 2 {
        if is_leap_year(year) { 29 } else { 28 }
    } else if month == 4 || month == 6 || month == 9 || month == 11 {
        30
    } else {
        31
    }
}

/// Whether `jiff::civil::DateTime::new` accepts the fields (with no
/// fractional second).
pub open spec fn valid_civil(f: CivilFields) -> bool {
    &&& -9999 <= f.year <= 9999
    &&& 1 <= f.month <= 12
    &&& 1 <= f.day <= days_in_month(f.year as int, f.month as int)
    &&& 0 <= f.hour <= 23
    &&& 0 <= f.minute <= 59
    &&& 0 <= f.second <= 59
}

/// The number of days from 1970-01-01 to the given date of the proleptic
/// Gregorian calendar (negative before it), counted in 400-year eras of
/// 146,097 days whose years begin in March.
pub open spec fn days_from_civil(year: int, month: int, day: int) -> int {
    let y = if month <= 2 { year - 1 } else { year };
    let era = y / 400;
    let year_of_era = y - era * 400;
    let march_month = if month > 2 { month - 3 } else { month + 9 };
    let day_of_year = (153 * march_month + 2) / 5 + day - 1;
    let day_of_era = year_of_era * 365 + year_of_era / 4 - year_of_era / 100 + day_of_year;
    era * 146_097 + day_of_era - 719_468
}

/// The seconds since the epoch of the UTC civil time `f`.
pub open spec fn utc_seconds(f: CivilFields) -> int {
    days_from_civil(f.year as int, f.month as int, f.day as int) * 86_400 + f.hour * 3_600
        + f.minute * 60 + f.second
}

/// The instant of the UTC civil time `f`, in seconds, as Jiff computes it;
/// `None` where it falls outside Jiff's range.
pub open spec fn utc_instant(f: CivilFields) -> Option<i64> {
    let s = utc_seconds(f);
    if JIFF_MIN_SECOND <= s <= JIFF_MAX_SECOND {
        Some(s as i64)
    } else {
        None
    }
}

/// The `ArgumentError` for civil fields that Jiff refuses; its message is
/// Jiff's.
fn civil_error(f: CivilFields) -> (r: Result<(), Error>)
    ensures
        r is Ok <==> valid_civil(f),
        r matches Err(e) ==> e.class == ExceptionClass::ArgError,
{
    match civil_datetime_error(f) {
        None => Ok(()),
        Some(message) => Err(Error::new(ExceptionClass::ArgError, message)),
    }
}

/// Converts the UTC civil fields from a timezone callback to a Jiff
/// timestamp: an `ArgumentError` when they do not form a datetime, a
/// `RangeError` with `"out of Time range"` when Jiff cannot represent it.
pub fn jiff_timestamp_from_utc_fields(f: CivilFields) -> (r: Result<JiffTimestamp, Error>)
    ensures
        !valid_civil(f) ==> (r matches Err(e) && e.class == ExceptionClass::ArgError),
        valid_civil(f) && utc_instant(f) is None ==> (r matches Err(e)
            && e.class == ExceptionClass::RangeError && e.message@ == "out of Time range"@),
        valid_civil(f) && utc_instant(f) is Some ==> (r matches Ok(t)
            && t.second == utc_instant(f).unwrap() && t.nanosecond == 0 && t.wf()),
{
    civil_error(f)?;
    match utc_civil_timestamp(f) {
        Some(t) => Ok(t),
        None => Err(out_of_range()),
    }
}

/// Where `is_dst?` finds the instant it asks about: the instant that
/// `local_to_utc` resolved for the same callback object, or else the UTC
/// civil fields of that object.
#[derive(Debug)]
pub enum DstSource {
    /// The seconds stored by `local_to_utc`.
    Resolved(i64),
    /// The object's UTC civil fields.
    Fields(CivilFields),
}

/// Jiff's timezone rules behind a Ruby timezone object.
///
/// Ruby attaches this object to a `Time` as its timezone object; the
/// object is not itself a `Time`.
#[derive(Debug)]
pub struct JiffTimeZone {
    /// Rules used by Ruby's timezone callbacks for conversions, offsets,
    /// abbreviations, and DST state.
    pub time_zone: jiff::tz::TimeZone,
    /// Exact timestamp used while converting an existing zoned time, which
    /// `local_to_utc` consumes.
    pub initial_timestamp: Option<JiffTimestamp>,
}

/// The name that `name` returns for a timezone whose IANA name is `iana`;
/// a `TypeError` when there is none, since Ruby's `Marshal` could not
/// restore the zone.
pub fn restorable_name(iana: Option<String>) -> (r: Result<String, Error>)
    ensures
        iana matches Some(n) ==> (r matches Ok(m) && m@ == n@),
        iana is None ==> (r matches Err(e) && e.class == ExceptionClass::TypeError
            && e.message@ == "jiff timezone does not have a restorable name"@),
{
    match iana {
        Some(n) => Ok(n),
        None => Err(Error::type_error(String::from_str("jiff timezone does not have a restorable name"))),
    }
}

/// The text `to_s` returns for a timezone whose IANA name is `iana`.
pub fn display_name(iana: Option<String>) -> (s: String)
    ensures
        iana matches Some(n) ==> s@ == n@,
        iana is None ==> s@ == "Jiff timezone"@,
{
    match iana {
        Some(n) => n,
        None => String::from_str("Jiff timezone"),
    }
}

/// The instant, in seconds, that Jiff resolves the local civil time `f` to
/// in `time_zone`; `None` when the time falls in a gap or fold of the zone
/// or outside Jiff's range.
pub open spec fn local_instant(time_zone: jiff::tz::TimeZone, f: CivilFields) -> Option<i64> {
    tz_local_instant(time_zone, f.year, f.month, f.day, f.hour, f.minute, f.second)
}

/// The timezone object made of what Jiff found for a name: one that resolves
/// user-supplied local times in that zone, or none when Jiff found nothing.
pub fn timezone_object(found: Option<jiff::tz::TimeZone>) -> (r: Option<JiffTimeZone>)
    ensures
        r is Some <==> found is Some,
        r matches Some(z) ==> found == Some(z.time_zone) && z.initial_timestamp is None,
{
    match found {
        Some(time_zone) => Some(JiffTimeZone::new(time_zone)),
        None => None,
    }
}

impl JiffTimeZone {
    /// Whether the stored timestamp is a Jiff timestamp.
    pub open spec fn wf(&self) -> bool {
        self.initial_timestamp matches Some(t) ==> t.wf()
    }

    /// Creates a timezone object that resolves user-supplied local times.
    pub fn new(time_zone: jiff::tz::TimeZone) -> (z: JiffTimeZone)
        ensures
            z.time_zone == time_zone,
            z.initial_timestamp is None,
    {
        JiffTimeZone { time_zone, initial_timestamp: None }
    }

    /// Creates a timezone object for `rb_time_num_new` to attach to a known
    /// instant.
    pub fn new_for_timestamp(time_zone: jiff::tz::TimeZone, timestamp: JiffTimestamp) -> (z: JiffTimeZone)
        ensures
            z.time_zone == time_zone,
            z.initial_timestamp == Some(timestamp),
    {
        JiffTimeZone { time_zone, initial_timestamp: Some(timestamp) }
    }

    /// Converts Ruby local civil-time fields to an instant, in seconds.
    ///
    /// Each call without a stored instant resolves its own fields, as
    /// [`local_instant`] gives them.
    ///
    /// When a zoned time is being converted, the stored timestamp is
    /// consumed and its whole seconds are returned, rounded down as Ruby
    /// rounds the local time it asks about, so the known instant survives
    /// ambiguous local times and instants before the epoch. Otherwise the fields, which the caller reads only then, are
    /// resolved with the zone's rules: an `ArgumentError` when they form an
    /// invalid datetime or fall in a gap or fold of the zone.
    pub fn local_to_utc(&mut self, fields: Option<CivilFields>) -> (r: Result<i64, Error>)
        requires
            old(self).wf(),
            old(self).initial_timestamp is None ==> fields is Some,
        ensures
            final(self).initial_timestamp is None,
            final(self).time_zone == old(self).time_zone,
            old(self).initial_timestamp matches Some(t) ==> (r matches Ok(s) && s == t.floor_second()),
            old(self).initial_timestamp is None && !valid_civil(fields.unwrap())
                ==> (r matches Err(e) && e.class == ExceptionClass::ArgError),
            old(self).initial_timestamp is None && valid_civil(fields.unwrap())
                ==> (r is Ok <==> local_instant(old(self).time_zone, fields.unwrap()) is Some),
            old(self).initial_timestamp is None && valid_civil(fields.unwrap())
                ==> (r matches Ok(s) ==> Some(s) == local_instant(old(self).time_zone, fields.unwrap())),
            old(self).initial_timestamp is None ==> (r matches Err(e) ==> e.class == ExceptionClass::ArgError),
    {
        match self.initial_timestamp.take() {
            Some(t) => Ok(t.whole_seconds_floor()),
            None => {
                let f = fields.unwrap();
                civil_error(f)?;
                match tz_resolve_local(&self.time_zone, f) {
                    Ok(t) => Ok(t.second),
                    Err(message) => Err(Error::new(ExceptionClass::ArgError, message)),
                }
            },
        }
    }

    /// Converts a known instant, given by its UTC civil fields, to local time
    /// with the offset the zone applies at that instant: the instant's
    /// seconds plus the offset. Errors are those of
    /// [`jiff_timestamp_from_utc_fields`]; the sum itself never overflows.
    pub fn utc_to_local(&self, fields: CivilFields) -> (r: Result<i64, Error>)
        ensures
            !valid_civil(fields) ==> (r matches Err(e) && e.class == ExceptionClass::ArgError),
            valid_civil(fields) && utc_instant(fields) is None ==> (r matches Err(e)
                && e.class == ExceptionClass::RangeError && e.message@ == "out of Time range"@),
            valid_civil(fields) && utc_instant(fields) is Some ==> (r matches Ok(local)
                && local == utc_instant(fields).unwrap()
                    + tz_offset(self.time_zone, utc_instant(fields).unwrap(), 0i32)),
    {
        let timestamp = jiff_timestamp_from_utc_fields(fields)?;
        let offset = tz_offset_seconds(&self.time_zone, timestamp);
        local_seconds(timestamp, offset)
    }

    /// Returns a restorable name for an IANA zone (Jiff's
    /// `TimeZone::iana_name`); a `TypeError` for other zones, which Ruby's
    /// `Marshal` could not restore.
    pub fn name(&self) -> (r: Result<String, Error>)
        ensures
            tz_iana(self.time_zone) matches Some(n) ==> (r matches Ok(m) && m@ == n),
            tz_iana(self.time_zone) is None ==> (r matches Err(e) && e.class == ExceptionClass::TypeError
                && e.message@ == "jiff timezone does not have a restorable name"@),
    {
        restorable_name(tz_iana_name(&self.time_zone))
    }

    /// The zone's IANA name (Jiff's `TimeZone::iana_name`), or
    /// `"Jiff timezone"` when it has none.
    pub fn to_s(&self) -> (s: String)
        ensures
            tz_iana(self.time_zone) matches Some(n) ==> s@ == n,
            tz_iana(self.time_zone) is None ==> s@ == "Jiff timezone"@,
    {
        display_name(tz_iana_name(&self.time_zone))
    }

    /// The timezone object for the zone Jiff finds under `name`, if any.
    ///
    /// Whether Jiff finds a zone depends on the system's time zone database,
    /// so success is not promised; [`timezone_object`] states what is made of
    /// Jiff's answer.
    pub fn find_timezone(name: &str) -> (r: Option<JiffTimeZone>)
        ensures
            r matches Some(z) ==> z.initial_timestamp is None,
            names_utc(name@) ==> (r matches Some(z) ==> z.time_zone == utc_zone()),
    {
        timezone_object(tz_get(name))
    }

    /// The zone's abbreviation at the instant of the callback object whose
    /// timespec is `ts`; errors are those of [`jiff_timestamp_from_timespec`].
    pub fn abbr(&self, ts: Timespec) -> (r: Result<String, Error>)
        ensures
            r is Ok <==> i32::MIN <= ts.tv_nsec <= i32::MAX
                && timestamp_new_ok(ts.tv_sec as int, ts.tv_nsec as int),
            r matches Err(e) ==> e.class == ExceptionClass::RangeError
                && e.message@ == "out of Time range"@,
            r matches Ok(a) ==> ({
                let t = timestamp_normalized(ts.tv_sec, ts.tv_nsec as i32);
                a@ == tz_abbr(self.time_zone, t.second, t.nanosecond)
            }),
    {
        let timestamp = jiff_timestamp_from_timespec(ts)?;
        Ok(tz_abbreviation(&self.time_zone, timestamp))
    }

    /// Reports whether the callback time observes DST: at the instant that
    /// `local_to_utc` resolved (a `RangeError` with `"out of Time range"`
    /// when Jiff cannot represent those seconds), or else at the instant of
    /// the object's UTC civil fields.
    pub fn is_dst(&self, source: DstSource) -> (r: Result<bool, Error>)
        ensures
            source matches DstSource::Resolved(s) ==> (r is Ok <==> timestamp_new_ok(s as int, 0)),
            source matches DstSource::Resolved(s) ==> (r matches Err(e) ==>
                e.class == ExceptionClass::RangeError && e.message@ == "out of Time range"@),
            source matches DstSource::Fields(f) ==> (r is Ok <==> valid_civil(f) && utc_instant(f) is Some),
            source matches DstSource::Fields(f) ==> (!valid_civil(f) ==> (r matches Err(e)
                && e.class == ExceptionClass::ArgError)),
            source matches DstSource::Fields(f) ==> (valid_civil(f) && utc_instant(f) is None
                ==> (r matches Err(e) && e.class == ExceptionClass::RangeError
                && e.message@ == "out of Time range"@)),
            source matches DstSource::Resolved(s) ==> (r matches Ok(b) ==> b == tz_dst(self.time_zone, s, 0i32)),
            source matches DstSource::Fields(f) ==> (r matches Ok(b)
                ==> b == tz_dst(self.time_zone, utc_instant(f).unwrap(), 0i32)),
    {
        let timestamp = match source {
            DstSource::Resolved(seconds) => match JiffTimestamp::new(seconds, 0) {
                Some(t) => t,
                None => return Err(out_of_range()),
            },
            DstSource::Fields(f) => jiff_timestamp_from_utc_fields(f)?,
        };
        Ok(tz_is_dst(&self.time_zone, timestamp))
    }
}

/// The local seconds of `timestamp` at an offset of `offset` seconds; the
/// `RangeError` for an overflow can never occur for a Jiff timestamp.
pub fn local_seconds(timestamp: JiffTimestamp, offset: i32) -> (r: Result<i64, Error>)
    requires
        timestamp.wf(),
        -JIFF_MAX_OFFSET_SECONDS <= offset <= JIFF_MAX_OFFSET_SECONDS,
    ensures
        r matches Ok(s) && s == timestamp.second + offset,
{
    match timestamp.second.checked_add(offset as i64) {
        Some(s) => Ok(s),
        None => Err(out_of_range()),
    }
}

/// What a Ruby `Time` tells about its timezone, as the conversion to a
/// zoned Jiff time reads it.
#[derive(Debug)]
pub struct RubyZoneFacts {
    /// The Jiff rules, when the `Time`'s zone object is a [`JiffTimeZone`].
    pub jiff_zone: Option<jiff::tz::TimeZone>,
    /// `Time#utc?`
    pub is_utc: bool,
    /// Whether `Time#zone` is `nil` (a fixed offset).
    pub zone_is_nil: bool,
    /// `Time#utc_offset`, in seconds.
    pub utc_offset: i64,
}

/// The Jiff timezone for a Ruby `Time`.
#[derive(Debug)]
pub enum ZoneSource {
    /// The rules of the `Time`'s Jiff timezone object.
    Jiff(jiff::tz::TimeZone),
    /// `jiff::tz::TimeZone::UTC`.
    Utc,
    /// `jiff::tz::TimeZone::fixed` of this many seconds east of UTC.
    Fixed(i32),
}

/// Jiff's UTC zone, `jiff::tz::TimeZone::UTC`.
pub open spec fn utc_zone() -> jiff::tz::TimeZone {
    jiff_fixed_zone(0i32)
}

impl ZoneSource {
    /// A fixed offset lies within Jiff's range.
    pub open spec fn wf(&self) -> bool {
        self matches ZoneSource::Fixed(s) ==> -JIFF_MAX_OFFSET_SECONDS <= *s <= JIFF_MAX_OFFSET_SECONDS
    }

    /// The Jiff timezone this stands for.
    pub open spec fn zone(&self) -> jiff::tz::TimeZone {
        match self {
            ZoneSource::Jiff(z) => *z,
            ZoneSource::Utc => utc_zone(),
            ZoneSource::Fixed(s) => jiff_fixed_zone(*s),
        }
    }

    /// The Jiff timezone itself.
    pub fn into_time_zone(self) -> (tz: jiff::tz::TimeZone)
        requires
            self.wf(),
        ensures
            tz == self.zone(),
            self is Utc ==> tz_fixed_offset_of(tz) == Some(0i32),
            self matches ZoneSource::Fixed(s) ==> tz_fixed_offset_of(tz) == Some(s),
    {
        match self {
            ZoneSource::Jiff(z) => z,
            ZoneSource::Utc => tz_utc(),
            ZoneSource::Fixed(s) => tz_fixed(s),
        }
    }
}

/// The message of the `RangeError` for a fixed offset that Jiff cannot hold.
pub open spec fn jiff_offset_range_message() -> Seq<char> {
    "UTC offset out of range for jiff::tz::Offset"@
}

/// The message of the `TypeError` for a timezone with no lossless Jiff form.
pub open spec fn lossy_zone_message() -> Seq<char> {
    "Ruby Time timezone cannot be represented losslessly as jiff::TimeZone"@
}

/// The Jiff timezone that a Ruby `Time` reporting `facts` converts to; `None`
/// when the conversion fails.
pub open spec fn zone_of_facts(facts: RubyZoneFacts) -> Option<jiff::tz::TimeZone> {
    match facts.jiff_zone {
        Some(tz) => Some(tz),
        None => if facts.is_utc {
            Some(utc_zone())
        } else if facts.zone_is_nil && -JIFF_MAX_OFFSET_SECONDS <= facts.utc_offset <= JIFF_MAX_OFFSET_SECONDS {
            Some(jiff_fixed_zone(facts.utc_offset as i32))
        } else {
            None
        },
    }
}

/// Chooses the Jiff timezone for a Ruby `Time`: the rules of a Jiff timezone
/// object; UTC for a UTC time; a fixed offset for a time with no zone
/// object (a `RangeError` when Jiff cannot hold the offset); a `TypeError`
/// for any other zone object, whose rules have no provably lossless Jiff
/// form.
pub fn jiff_time_zone_from_time(facts: RubyZoneFacts) -> (r: Result<ZoneSource, Error>)
    ensures
        r matches Ok(z) ==> z.wf(),
        r is Ok <==> zone_of_facts(facts) is Some,
        r matches Ok(z) ==> zone_of_facts(facts) == Some(z.zone()),
        facts.jiff_zone matches Some(tz) ==> (r matches Ok(ZoneSource::Jiff(z)) && z == tz),
        facts.jiff_zone is None && facts.is_utc ==> (r matches Ok(ZoneSource::Utc)),
        facts.jiff_zone is None && !facts.is_utc && facts.zone_is_nil ==> ({
            let o = facts.utc_offset;
            &&& (!(i32::MIN <= o <= i32::MAX) ==> (r matches Err(e)
                && e.class == ExceptionClass::RangeError && e.message@ == jiff_offset_range_message()))
            &&& (i32::MIN <= o <= i32::MAX && !(-JIFF_MAX_OFFSET_SECONDS <= o <= JIFF_MAX_OFFSET_SECONDS)
                ==> (r matches Err(e) && e.class == ExceptionClass::RangeError
                && e.message@.len() >= jiff_offset_range_message().len() + 2
                && e.message@.subrange(0, jiff_offset_range_message().len() + 2int)
                    == jiff_offset_range_message() + ": "@))
            &&& (-JIFF_MAX_OFFSET_SECONDS <= o <= JIFF_MAX_OFFSET_SECONDS
                ==> (r matches Ok(ZoneSource::Fixed(s)) && s == o))
        }),
        facts.jiff_zone is None && !facts.is_utc && !facts.zone_is_nil ==> (r matches Err(e)
            && e.class == ExceptionClass::TypeError && e.message@ == lossy_zone_message()),
{
    if let Some(tz) = facts.jiff_zone {
        return Ok(ZoneSource::Jiff(tz));
    }
    if facts.is_utc {
        return Ok(ZoneSource::Utc);
    }
    if facts.zone_is_nil {
        if facts.utc_offset < i32::MIN as i64 || facts.utc_offset > i32::MAX as i64 {
            return Err(Error::new(
                ExceptionClass::RangeError,
                String::from_str("UTC offset out of range for jiff::tz::Offset"),
            ));
        }
        let seconds: i32 = facts.utc_offset as i32;
        return match offset_from_seconds(seconds) {
            Ok(s) => Ok(ZoneSource::Fixed(s)),
            Err(jiff_message) => {
                let mut message = String::from_str("UTC offset out of range for jiff::tz::Offset: ");
                message.append(jiff_message.as_str());
                proof {
                    reveal_strlit("UTC offset out of range for jiff::tz::Offset: ");
                    reveal_strlit("UTC offset out of range for jiff::tz::Offset");
                    reveal_strlit(": ");
                    assert(message@.subrange(0, jiff_offset_range_message().len() + 2int)
                        =~= jiff_offset_range_message() + ": "@);
                }
                Err(Error::new(ExceptionClass::RangeError, message))
            },
        };
    }
    Err(Error::type_error(String::from_str(
        "Ruby Time timezone cannot be represented losslessly as jiff::TimeZone",
    )))
}

/// The offset, in seconds, of a zone other than UTC that is the fixed zone
/// of its own `to_fixed_offset`; `None` for any other zone.
pub open spec fn explicit_fixed_offset_of(time_zone: jiff::tz::TimeZone) -> Option<i32> {
    if time_zone == utc_zone() {
        None
    } else {
        match tz_fixed_offset_of(time_zone) {
            Some(s) => if time_zone == jiff_fixed_zone(s) {
                Some(s)
            } else {
                None
            },
            None => None,
        }
    }
}

/// A zone that `TimeZone::fixed` makes for a non-zero offset is an explicit
/// fixed offset with exactly that offset, so a zoned time in it becomes a
/// Ruby `Time` at that offset with no zone object, or, when Ruby's range
/// does not hold the offset, a UTC `Time` with a warning; never a `Time`
/// carrying a Jiff timezone object.
///
/// The two facts about Jiff it rests on are those that `tz_fixed` and
/// `tz_utc` state of the zones they return: `to_fixed_offset` of
/// `TimeZone::fixed(s)` is `s`, and that of `TimeZone::UTC` is zero.
pub proof fn lemma_fixed_zone_is_explicit(s: i32, z: JiffZoned, plan: ZonedTimePlan)
    requires
        s != 0,
        tz_fixed_offset_of(jiff_fixed_zone(s)) == Some(s),
        tz_fixed_offset_of(utc_zone()) == Some(0i32),
        z.time_zone == jiff_fixed_zone(s),
        plan_for_zoned(z, plan),
    ensures
        explicit_fixed_offset_of(jiff_fixed_zone(s)) == Some(s),
        offset_in_range(s as int) ==> (plan matches ZonedTimePlan::Fixed(ts, o)
            && o@ == OffsetType::Offset(s) && ts.tv_sec == z.timestamp.second
            && ts.tv_nsec == z.timestamp.nanosecond),
        !offset_in_range(s as int) ==> plan is UtcWithWarning,
        !(plan is Zone),
{
    assert(jiff_fixed_zone(s) != utc_zone());
}

/// The offset of a timezone that Jiff stores as an explicit fixed offset.
///
/// Jiff also considers UTC and its unknown timezone fixed; UTC is excluded
/// first, and the unknown zone fails the comparison with
/// `TimeZone::fixed`.
pub fn jiff_explicit_fixed_offset(time_zone: &jiff::tz::TimeZone) -> (r: Option<i32>)
    ensures
        r == explicit_fixed_offset_of(*time_zone),
        r matches Some(s) ==> -JIFF_MAX_OFFSET_SECONDS <= s <= JIFF_MAX_OFFSET_SECONDS,
        forall|s: i32|
            s != 0 && *time_zone == #[trigger] jiff_fixed_zone(s)
                && tz_fixed_offset_of(jiff_fixed_zone(s)) == Some(s)
                && tz_fixed_offset_of(utc_zone()) == Some(0i32) ==> r == Some(s),
{
    if tz_is_utc(time_zone) {
        return None;
    }
    match tz_fixed_offset(time_zone) {
        Some(seconds) => {
            if tz_is_fixed(time_zone, seconds) {
                Some(seconds)
            } else {
                None
            }
        },
        None => None,
    }
}

/// A Jiff zoned time: an instant and the timezone it is seen in.
#[derive(Debug)]
pub struct JiffZoned {
    pub timestamp: JiffTimestamp,
    pub time_zone: jiff::tz::TimeZone,
}

/// How to create the Ruby `Time` for a Jiff zoned time.
#[derive(Debug)]
pub enum ZonedTimePlan {
    /// `time_timespec_new(timespec, Offset::utc())`.
    Utc(Timespec),
    /// `time_timespec_new(timespec, offset)`; should Ruby refuse it, warn
    /// with [`fallback_warning`] and use the UTC time instead.
    Fixed(Timespec, Offset),
    /// `rb_time_num_new(Rational(local_nanoseconds, 1_000_000_000), zone)`
    /// with `zone` wrapped and frozen; should Ruby refuse it, warn with
    /// [`fallback_warning`] and use the UTC time of `utc` instead.
    Zone { local_nanoseconds: i128, zone: JiffTimeZone, utc: Timespec },
    /// Ruby cannot represent the offset: warn with [`fallback_warning`] for
    /// the error and use the UTC time of the timespec.
    UtcWithWarning(Timespec, Error),
}

/// The local wall-clock instant, in nanoseconds, of `timestamp` at an offset
/// of `offset_seconds`: what `rb_time_num_new` reads for a time with a
/// timezone object. It never overflows an `i128`.
pub fn local_nanoseconds(timestamp: JiffTimestamp, offset_seconds: i32) -> (n: i128)
    requires
        timestamp.wf(),
        -JIFF_MAX_OFFSET_SECONDS <= offset_seconds <= JIFF_MAX_OFFSET_SECONDS,
    ensures
        n == timestamp.nanoseconds() + offset_seconds * 1_000_000_000,
{
    timestamp.as_nanosecond() + (offset_seconds as i128) * NANOS_PER_SECOND_WIDE
}

/// The plan for a zoned time whose zone is UTC (`is_utc`), or has the
/// explicit fixed offset `explicit_fixed`, or else applies `offset_seconds`
/// at its instant: a UTC time; a time at the fixed offset, or a UTC time
/// with a warning when Ruby's range `-86400..=86400` does not hold it; a
/// time carrying a Jiff timezone object made for the instant.
pub fn zoned_time_plan_for(
    timestamp: JiffTimestamp,
    time_zone: jiff::tz::TimeZone,
    is_utc: bool,
    explicit_fixed: Option<i32>,
    offset_seconds: i32,
) -> (plan: ZonedTimePlan)
    requires
        timestamp.wf(),
        explicit_fixed matches Some(s) ==> -JIFF_MAX_OFFSET_SECONDS <= s <= JIFF_MAX_OFFSET_SECONDS,
        -JIFF_MAX_OFFSET_SECONDS <= offset_seconds <= JIFF_MAX_OFFSET_SECONDS,
    ensures
        is_utc ==> (plan matches ZonedTimePlan::Utc(ts)
            && ts.tv_sec == timestamp.second && ts.tv_nsec == timestamp.nanosecond),
        !is_utc && explicit_fixed is Some && offset_in_range(explicit_fixed.unwrap() as int)
            ==> (plan matches ZonedTimePlan::Fixed(ts, o)
            && ts.tv_sec == timestamp.second && ts.tv_nsec == timestamp.nanosecond
            && o@ == OffsetType::Offset(explicit_fixed.unwrap())),
        !is_utc && explicit_fixed is Some && !offset_in_range(explicit_fixed.unwrap() as int)
            ==> (plan matches ZonedTimePlan::UtcWithWarning(ts, e)
            && ts.tv_sec == timestamp.second && ts.tv_nsec == timestamp.nanosecond
            && e.class == ExceptionClass::ArgError
            && e.message@ == offset_error_message(explicit_fixed.unwrap() as int)),
        !is_utc && explicit_fixed is None ==> (plan matches ZonedTimePlan::Zone { local_nanoseconds, zone, utc }
            && local_nanoseconds == timestamp.nanoseconds() + offset_seconds * 1_000_000_000
            && zone.time_zone == time_zone && zone.initial_timestamp == Some(timestamp)
            && utc.tv_sec == timestamp.second && utc.tv_nsec == timestamp.nanosecond),
{
    let utc = timespec_from_jiff(timestamp);
    if is_utc {
        return ZonedTimePlan::Utc(utc);
    }
    match explicit_fixed {
        Some(seconds) => match Offset::from_secs(seconds) {
            Ok(offset) => ZonedTimePlan::Fixed(utc, offset),
            Err(err) => ZonedTimePlan::UtcWithWarning(utc, err.into_error()),
        },
        None => ZonedTimePlan::Zone {
            local_nanoseconds: local_nanoseconds(timestamp, offset_seconds),
            zone: JiffTimeZone::new_for_timestamp(time_zone, timestamp),
            utc,
        },
    }
}

/// Whether `ts` is the timespec of the Jiff timestamp `t`.
pub open spec fn is_timespec_of(ts: Timespec, t: JiffTimestamp) -> bool {
    ts.tv_sec == t.second && ts.tv_nsec == t.nanosecond
}

/// The plan [`zoned_time_plan`] makes for `z`: a UTC time for Jiff's UTC
/// zone; for an explicit fixed offset, a time at that offset, or a UTC time
/// with a warning when Ruby's range `-86400..=86400` does not hold it; for
/// any other zone, a time carrying a Jiff timezone object made for the
/// instant, at the local instant given by the offset the zone applies then.
pub open spec fn plan_for_zoned(z: JiffZoned, plan: ZonedTimePlan) -> bool {
    let t = z.timestamp;
    if z.time_zone == utc_zone() {
        plan matches ZonedTimePlan::Utc(ts) && is_timespec_of(ts, t)
    } else {
        match explicit_fixed_offset_of(z.time_zone) {
            Some(s) => if offset_in_range(s as int) {
                plan matches ZonedTimePlan::Fixed(ts, o) && is_timespec_of(ts, t)
                    && o@ == OffsetType::Offset(s)
            } else {
                plan matches ZonedTimePlan::UtcWithWarning(ts, e) && is_timespec_of(ts, t)
                    && e.class == ExceptionClass::ArgError && e.message@ == offset_error_message(s as int)
            },
            None => plan matches ZonedTimePlan::Zone { local_nanoseconds, zone, utc }
                && is_timespec_of(utc, t)
                && local_nanoseconds == t.nanoseconds() + tz_offset(z.time_zone, t.second, t.nanosecond)
                    * 1_000_000_000
                && zone.time_zone == z.time_zone && zone.initial_timestamp == Some(t),
        }
    }
}

/// The plan for creating the Ruby `Time` of a Jiff zoned time, as
/// [`plan_for_zoned`] describes it; see [`zoned_time_plan_for`] for the
/// same choice made from what Jiff answers about the zone.
pub fn zoned_time_plan(z: JiffZoned) -> (plan: ZonedTimePlan)
    requires
        z.timestamp.wf(),
    ensures
        plan_for_zoned(z, plan),
{
    let is_utc = tz_is_utc(&z.time_zone);
    if is_utc {
        return zoned_time_plan_for(z.timestamp, z.time_zone, true, None, 0);
    }
    let explicit_fixed = jiff_explicit_fixed_offset(&z.time_zone);
    let offset_seconds: i32 = match explicit_fixed {
        Some(_) => 0,
        None => tz_offset_seconds(&z.time_zone, z.timestamp),
    };
    zoned_time_plan_for(z.timestamp, z.time_zone, false, explicit_fixed, offset_seconds)
}

/// What Ruby reports of the zone of the `Time` that `plan` makes, as
/// [`jiff_time_zone_from_time`] reads it: a UTC time for the UTC plans; a
/// time with the plan's offset and no zone object for a fixed offset; a time
/// whose zone object is the plan's Jiff timezone object otherwise.
pub open spec fn ruby_zone_facts(plan: ZonedTimePlan) -> RubyZoneFacts {
    match plan {
        ZonedTimePlan::Utc(_) => RubyZoneFacts { jiff_zone: None, is_utc: true, zone_is_nil: false, utc_offset: 0 },
        ZonedTimePlan::UtcWithWarning(_, _) => RubyZoneFacts {
            jiff_zone: None,
            is_utc: true,
            zone_is_nil: false,
            utc_offset: 0,
        },
        ZonedTimePlan::Fixed(_, o) => RubyZoneFacts {
            jiff_zone: None,
            is_utc: false,
            zone_is_nil: true,
            utc_offset: offset_c_int(o@) as i64,
        },
        ZonedTimePlan::Zone { local_nanoseconds, zone, utc } => RubyZoneFacts {
            jiff_zone: Some(zone.time_zone),
            is_utc: false,
            zone_is_nil: false,
            utc_offset: ((local_nanoseconds - (utc.tv_sec * 1_000_000_000 + utc.tv_nsec)) / 1_000_000_000) as i64,
        },
    }
}

/// The instant, in nanoseconds since the epoch, of the Ruby `Time` that
/// `plan` makes. For the UTC and fixed plans it is that of the timespec
/// handed to `rb_time_timespec_new`. For a timezone object, CRuby splits the
/// local instant into whole seconds, rounded down, and the nanoseconds
/// beyond them; it takes the whole seconds of the instant from the object's
/// `local_to_utc`, which for the plan's object are those of the stored
/// timestamp, rounded down, and adds the nanoseconds back.
pub open spec fn plan_instant(plan: ZonedTimePlan) -> int {
    match plan {
        ZonedTimePlan::Utc(ts) => ts.tv_sec * 1_000_000_000 + ts.tv_nsec,
        ZonedTimePlan::UtcWithWarning(ts, _) => ts.tv_sec * 1_000_000_000 + ts.tv_nsec,
        ZonedTimePlan::Fixed(ts, _) => ts.tv_sec * 1_000_000_000 + ts.tv_nsec,
        ZonedTimePlan::Zone { local_nanoseconds, zone, utc } => zone.initial_timestamp.unwrap().floor_second()
            * 1_000_000_000 + local_nanoseconds % 1_000_000_000,
    }
}

/// A Jiff zoned time converted to a Ruby `Time` and back is the same zoned
/// time: the `Time` has the same instant, whose timespec Ruby reports
/// converts back to the same timestamp, and the zone Ruby reports for it
/// converts back to the same Jiff zone. Where Ruby cannot represent a fixed
/// offset, the `Time` is in UTC and only the instant survives.
pub proof fn lemma_zoned_round_trip(z: JiffZoned, plan: ZonedTimePlan)
    requires
        z.timestamp.wf(),
        plan_for_zoned(z, plan),
    ensures
        ({
            let (sec, nsec) = ruby_timespec(0, plan_instant(plan));
            &&& plan_instant(plan) == z.timestamp.nanoseconds()
            &&& timestamp_new_ok(sec, nsec)
            &&& timestamp_normalized(sec as i64, nsec as i32) == z.timestamp
        }),
        !(plan is UtcWithWarning) ==> zone_of_facts(ruby_zone_facts(plan)) == Some(z.time_zone),
        plan is UtcWithWarning ==> zone_of_facts(ruby_zone_facts(plan)) == Some(utc_zone()),
{
    let t = z.timestamp;
    lemma_jiff_timestamp_round_trip(t);
    if let ZonedTimePlan::Zone { local_nanoseconds, zone, utc } = plan {
        let off = tz_offset(z.time_zone, t.second, t.nanosecond);
        let fraction = t.nanoseconds() - t.floor_second() * 1_000_000_000;
        assert(local_nanoseconds == (t.floor_second() + off) * 1_000_000_000 + fraction) by (nonlinear_arith)
            requires
                local_nanoseconds == t.second * 1_000_000_000 + t.nanosecond + off * 1_000_000_000,
                fraction == t.nanoseconds() - t.floor_second() * 1_000_000_000,
                t.nanoseconds() == t.second * 1_000_000_000 + t.nanosecond,
        ;
        lemma_fundamental_div_mod_converse(
            local_nanoseconds as int,
            1_000_000_000,
            t.floor_second() + off,
            fraction,
        );
    }
}

/// The warning for a zoned time that Ruby could not represent, whose error
/// reads `error`.
pub fn fallback_warning(error: &str) -> (s: String)
    ensures
        s@ == "could not represent jiff timezone in Ruby Time ("@ + error@ + "); using UTC"@,
{
    let mut s = String::from_str("could not represent jiff timezone in Ruby Time (");
    s.append(error);
    s.append("); using UTC");
    s
}

} // verus!
