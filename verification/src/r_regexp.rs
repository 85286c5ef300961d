//! Ruby's `Regexp` values.

use vstd::prelude::*;

use crate::error::{Error, ExceptionClass};
use crate::value::{NonZeroValue, Value, ValueType};

verus! {

/// A value known to be a Ruby regular expression (`T_REGEXP`).
#[derive(Debug)]
pub struct RRegexp(NonZeroValue);

impl Clone for RRegexp {
    fn clone(&self) -> (r: RRegexp)
        ensures
            r == *self,
    {
        RRegexp(self.0.clone())
    }
}

/// The message of the `TypeError` raised for a value of class `class_name`
/// that is not a `Regexp`.
pub open spec fn regexp_conversion_message(class_name: Seq<char>) -> Seq<char> {
    "no implicit conversion of "@ + class_name + " into Regexp"@
}

impl RRegexp {
    /// The wrapped value.
    pub closed spec fn spec_value(&self) -> Value {
        self.0.spec_value()
    }

    /// Return `Some(RRegexp)` if `val` is a `RRegexp`, `None` otherwise.
    pub fn from_value(val: Value) -> (r: Option<RRegexp>)
        ensures
            r is Some <==> val.spec_value_type() == ValueType::Regexp,
            r matches Some(re) ==> re.spec_value() == val,
    {
        if val.rb_type() == ValueType::Regexp {
            Some(RRegexp(NonZeroValue::new(val)))
        } else {
            None
        }
    }

    /// The regular expression as a plain value.
    pub fn as_value(&self) -> (v: &Value)
        ensures
            *v == self.spec_value(),
    {
        self.0.get_ref()
    }

    /// The regular expression as a plain value (`From<RRegexp> for Value`).
    pub fn into_value(self) -> (v: Value)
        ensures
            v == self.spec_value(),
    {
        self.0.get_ref().clone()
    }

    /// Converts `val` to a `RRegexp`, raising `TypeError` when it is not one.
    pub fn try_convert(val: &Value) -> (r: Result<RRegexp, Error>)
        ensures
            r is Ok <==> val.spec_value_type() == ValueType::Regexp,
            r matches Ok(re) ==> re.spec_value() == *val,
            r matches Err(e) ==> e.class == ExceptionClass::TypeError
                && e.message@ == regexp_conversion_message(val.spec_class_name()),
    {
        match Self::from_value(val.clone()) {
            Some(re) => Ok(re),
            None => {
                let mut message = String::from_str("no implicit conversion of ");
                message.append(val.classname());
                message.append(" into Regexp");
                Err(Error::type_error(message))
            },
        }
    }
}

} // verus!
