//! Types and functions for working with Ruby's `Time` class.
//!
//! Ruby-to-Jiff conversion raises `RangeError` with `"out of Time range"`
//! for instants outside Jiff's supported range (see [`jiff_time`]); the
//! conversions to and from `chrono` are in [`chrono_time`], those to and from
//! `std::time::SystemTime` are below.

use vstd::prelude::*;

use crate::decimal::{decimal, push_decimal};
use crate::error::{Error, ExceptionClass};
use crate::value::{RTypedData, Value, ValueType};

pub mod chrono_calls;
pub mod chrono_time;
pub mod jiff_calls;
pub mod jiff_time;
pub mod system_time;

verus! {

/// Nanoseconds in one second.
pub const NANOS_PER_SECOND: i64 = 1_000_000_000;

/// The largest magnitude, in seconds, of an offset from UTC that Ruby accepts.
pub const MAX_OFFSET_SECONDS: i32 = 86_400;

/// Struct representing a point in time as an offset from the UNIX epoch.
#[derive(Clone, Copy, Debug, PartialEq, Eq, PartialOrd, Ord, Structural)]
pub struct Timespec {
    /// Seconds since the UNIX epoch.
    pub tv_sec: i64,
    /// Subsecond offset in nanoseconds.
    pub tv_nsec: i64,
}

/// The `(tv_sec, tv_nsec)` that `rb_time_timespec` reports for the Ruby
/// `Time` made from `sec` seconds and `nsec` nanoseconds since the epoch
/// (as `Time.at(sec, nsec, :nsec)` or `rb_time_timespec_new` make it): the
/// whole seconds rounded down, and the nanoseconds that remain, in
/// `0..1_000_000_000`.
pub open spec fn ruby_timespec(sec: int, nsec: int) -> (int, int) {
    let total = sec * 1_000_000_000 + nsec;
    (total / 1_000_000_000, total % 1_000_000_000)
}

/// What an [`Offset`] stands for.
#[derive(Clone, Copy, Debug, PartialEq, Eq, Structural)]
pub enum OffsetType {
    /// The local timezone.
    Local,
    /// UTC.
    Utc,
    /// A fixed number of seconds east of UTC.
    Offset(i32),
}

/// Struct representing an offset from UTC.
#[derive(Clone, Copy, Debug, PartialEq, Eq, Structural)]
pub struct Offset(OffsetType);

/// Whether Ruby accepts an offset of `seconds` from UTC.
pub open spec fn offset_in_range(seconds: int) -> bool {
    -86_400 <= seconds <= 86_400
}

/// `seconds` clamped to the range of an `i32`.
pub open spec fn clamped_seconds(seconds: int) -> i32 {
    if seconds < i32::MIN {
        i32::MIN
    } else if seconds > i32::MAX {
        i32::MAX
    } else {
        seconds as i32
    }
}

/// The message of an [`OffsetError`] for `seconds`.
pub open spec fn offset_error_message(seconds: int) -> Seq<char> {
    "utc_offset "@ + decimal(seconds) + " out of range (-86400 to 86400)"@
}

/// The `int` that `rb_time_timespec_new` reads for an offset: `INT_MAX`
/// for local time, `INT_MAX - 1` for UTC, otherwise the seconds east of UTC.
pub open spec fn offset_c_int(o: OffsetType) -> i32 {
    match o {
        OffsetType::Local => i32::MAX,
        OffsetType::Utc => (i32::MAX - 1) as i32,
        OffsetType::Offset(i) => i,
    }
}

impl View for Offset {
    type V = OffsetType;

    closed spec fn view(&self) -> OffsetType {
        self.0
    }
}

impl Offset {
    /// Creates a new `Offset` from the specified number of seconds.
    pub fn from_secs(offset: i32) -> (r: Result<Offset, OffsetError>)
        ensures
            r is Ok <==> offset_in_range(offset as int),
            r matches Ok(o) ==> o@ == OffsetType::Offset(offset),
            r matches Err(e) ==> e@ == offset,
    {
        if -MAX_OFFSET_SECONDS <= offset && offset <= MAX_OFFSET_SECONDS {
            Ok(Offset(OffsetType::Offset(offset)))
        } else {
            Err(OffsetError(offset))
        }
    }

    /// Creates a new `Offset` from the specified number of minutes.
    ///
    /// Minutes whose seconds do not fit an `i32` are out of range too; their
    /// error holds the seconds clamped to the `i32` range.
    pub fn from_mins(offset: i32) -> (r: Result<Offset, OffsetError>)
        ensures
            r is Ok <==> offset_in_range(offset * 60),
            r matches Ok(o) ==> o@ == OffsetType::Offset((offset * 60) as i32),
            r matches Err(e) ==> e@ == clamped_seconds(offset * 60),
    {
        Self::from_scaled(offset, 60)
    }

    /// Creates a new `Offset` from the specified number of hours.
    ///
    /// Hours whose seconds do not fit an `i32` are out of range too; their
    /// error holds the seconds clamped to the `i32` range.
    pub fn from_hours(offset: i32) -> (r: Result<Offset, OffsetError>)
        ensures
            r is Ok <==> offset_in_range(offset * 3600),
            r matches Ok(o) ==> o@ == OffsetType::Offset((offset * 3600) as i32),
            r matches Err(e) ==> e@ == clamped_seconds(offset * 3600),
    {
        Self::from_scaled(offset, 3600)
    }

    /// The offset of `offset` units of `unit_seconds` seconds each.
    fn from_scaled(offset: i32, unit_seconds: i32) -> (r: Result<Offset, OffsetError>)
        requires
            unit_seconds > 0,
        ensures
            r is Ok <==> offset_in_range(offset * unit_seconds),
            r matches Ok(o) ==> o@ == OffsetType::Offset((offset * unit_seconds) as i32),
            r matches Err(e) ==> e@ == clamped_seconds(offset * unit_seconds),
    {
        match offset.checked_mul(unit_seconds) {
            Some(seconds) => Self::from_secs(seconds),
            None => {
                proof {
                    if offset >= 0 {
                        assert(offset * unit_seconds >= 0) by (nonlinear_arith)
                            requires offset >= 0, unit_seconds > 0;
                    } else {
                        assert(offset * unit_seconds < 0) by (nonlinear_arith)
                            requires offset < 0, unit_seconds > 0;
                    }
                }
                if offset < 0 {
                    Err(OffsetError(i32::MIN))
                } else {
                    Err(OffsetError(i32::MAX))
                }
            },
        }
    }

    /// Create a new `Offset` representing local time.
    pub fn local() -> (o: Offset)
        ensures
            o@ == OffsetType::Local,
    {
        Offset(OffsetType::Local)
    }

    /// Create a new `Offset` representing UTC.
    pub fn utc() -> (o: Offset)
        ensures
            o@ == OffsetType::Utc,
    {
        Offset(OffsetType::Utc)
    }

    /// The `int` that `rb_time_timespec_new` takes for this offset.
    pub fn as_c_int(&self) -> (i: i32)
        ensures
            i == offset_c_int(self@),
    {
        match self.0 {
            OffsetType::Local => i32::MAX,
            OffsetType::Utc => i32::MAX - 1,
            OffsetType::Offset(i) => i,
        }
    }
}

/// An error returned when an [`Offset`] is out of range.
#[derive(Clone, Copy, Debug, PartialEq, Eq, Structural)]
pub struct OffsetError(i32);

impl View for OffsetError {
    type V = i32;

    closed spec fn view(&self) -> i32 {
        self.0
    }
}

impl OffsetError {
    /// The rejected offset, in seconds.
    pub fn seconds(&self) -> (s: i32)
        ensures
            s == self@,
    {
        self.0
    }

    /// The message of this error, as `Display` writes it.
    pub fn to_string(&self) -> (s: String)
        ensures
            s@ == offset_error_message(self@ as int),
    {
        let mut s = String::from_str("utc_offset ");
        push_decimal(&mut s, self.0 as i64);
        s.append(" out of range (-86400 to 86400)");
        s
    }

    /// The Ruby exception for this error: an `ArgumentError` with its message.
    pub fn into_error(self) -> (e: Error)
        ensures
            e.class == ExceptionClass::ArgError,
            e.message@ == offset_error_message(self@ as int),
    {
        Error::new(ExceptionClass::ArgError, self.to_string())
    }
}

/// Every offset east or west of UTC has a `c_int` distinct from those of
/// local time, of UTC and of every other offset, so `rb_time_timespec_new`
/// can tell them apart.
pub proof fn lemma_offset_c_int_injective(a: Offset, b: Offset)
    requires
        a@ matches OffsetType::Offset(s) ==> offset_in_range(s as int),
        b@ matches OffsetType::Offset(s) ==> offset_in_range(s as int),
        offset_c_int(a@) == offset_c_int(b@),
    ensures
        a@ == b@,
{
}

/// An offset made from seconds hands `rb_time_timespec_new` those seconds.
pub proof fn lemma_from_secs_c_int(offset: i32, o: Offset)
    requires
        o@ == OffsetType::Offset(offset),
    ensures
        offset_c_int(o@) == offset,
{
}

/// Wrapper type for a Value known to be an instance of Ruby's Time class.
#[derive(Debug)]
pub struct Time(RTypedData);

impl Clone for Time {
    fn clone(&self) -> (r: Time)
        ensures
            r == *self,
    {
        Time(self.0.clone())
    }
}

/// The message of the `TypeError` raised for a value of class `class_name`
/// that is not a `Time`.
pub open spec fn time_conversion_message(class_name: Seq<char>) -> Seq<char> {
    "no implicit conversion of "@ + class_name + " into Time"@
}

/// Whether `val` is a Ruby `Time`: typed data that is a kind of `Time`.
pub open spec fn is_time(val: Value) -> bool {
    &&& val.spec_value_type() == ValueType::Data
    &&& val.spec_typed_data()
    &&& val.spec_kind_of_time()
}

/// A value is a `Time` exactly when it is typed data that is a kind of
/// `Time`, whatever its class is called: an instance of a subclass of
/// `Time` is a `Time`, and two values that differ only in the name of their
/// class are both `Time`s or neither.
pub proof fn lemma_is_time_by_kind(val: Value, other: Value)
    requires
        other.spec_value_type() == val.spec_value_type(),
        other.spec_typed_data() == val.spec_typed_data(),
        other.spec_kind_of_time() == val.spec_kind_of_time(),
    ensures
        is_time(val) <==> (val.spec_value_type() == ValueType::Data && val.spec_typed_data()
            && val.spec_kind_of_time()),
        is_time(val) == is_time(other),
{
}

impl Time {
    /// The wrapped value.
    pub closed spec fn spec_value(&self) -> Value {
        self.0.spec_value()
    }

    /// Return `Some(Time)` if `val` is a `Time`, `None` otherwise.
    pub fn from_value(val: Value) -> (r: Option<Time>)
        ensures
            r is Some <==> is_time(val),
            r is Some <==> (val.spec_value_type() == ValueType::Data && val.spec_typed_data()
                && val.spec_kind_of_time()),
            r matches Some(t) ==> t.spec_value() == val,
    {
        let kind_of_time = val.is_kind_of_time();
        match RTypedData::from_value(val) {
            Some(data) => {
                if kind_of_time {
                    Some(Time(data))
                } else {
                    None
                }
            },
            None => None,
        }
    }

    /// The time as a plain value.
    pub fn as_value(&self) -> (v: &Value)
        ensures
            *v == self.spec_value(),
    {
        self.0.as_value()
    }

    /// The time as a plain value (`IntoValue for Time`).
    pub fn into_value(self) -> (v: Value)
        ensures
            v == self.spec_value(),
    {
        self.0.as_value().clone()
    }

    /// Converts `val` to a `Time`, raising `TypeError` when it is not one.
    pub fn try_convert(val: Value) -> (r: Result<Time, Error>)
        ensures
            r is Ok <==> is_time(val),
            r is Ok <==> (val.spec_value_type() == ValueType::Data && val.spec_typed_data()
                && val.spec_kind_of_time()),
            r matches Ok(t) ==> t.spec_value() == val,
            r matches Err(e) ==> e.class == ExceptionClass::TypeError
                && e.message@ == time_conversion_message(val.spec_class_name()),
    {
        let mut message = String::from_str("no implicit conversion of ");
        message.append(val.classname());
        message.append(" into Time");
        match Self::from_value(val) {
            Some(t) => Ok(t),
            None => Err(Error::type_error(message)),
        }
    }
}

/// Whether `Time.find_timezone` has to be defined: it is, unless `Time`
/// already responds to it.
pub fn init(time_responds_to_find_timezone: bool) -> (define_find_timezone: bool)
    ensures
        define_find_timezone == !time_responds_to_find_timezone,
{
    !time_responds_to_find_timezone
}

} // verus!
