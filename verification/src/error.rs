//! Ruby exceptions raised by the conversions of this crate.

use vstd::prelude::*;

verus! {

/// The Ruby exception classes that the conversions raise.
#[derive(Clone, Copy, Debug, PartialEq, Eq, Structural)]
pub enum ExceptionClass {
    /// `ArgumentError`
    ArgError,
    /// `RangeError`
    RangeError,
    /// `TypeError`
    TypeError,
}

/// A Ruby exception: its class and its message.
#[derive(Clone, Debug)]
pub struct Error {
    pub class: ExceptionClass,
    pub message: String,
}

impl Error {
    /// Creates a new exception of class `class` with message `message`.
    pub fn new(class: ExceptionClass, message: String) -> (e: Error)
        ensures
            e.class == class,
            e.message@ == message@,
    {
        Error { class, message }
    }

    /// Creates a new `TypeError` with message `message`.
    pub fn type_error(message: String) -> (e: Error)
        ensures
            e.class == ExceptionClass::TypeError,
            e.message@ == message@,
    {
        Error { class: ExceptionClass::TypeError, message }
    }

    /// Returns `true` when the exception is of class `class`.
    pub fn is_kind_of(&self, class: ExceptionClass) -> (b: bool)
        ensures
            b == (self.class == class),
    {
        self.class == class
    }
}

} // verus!
