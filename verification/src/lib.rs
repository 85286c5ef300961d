//! Verified core of the Ruby `Time` and `Regexp` bindings.
//!
//! Ruby objects are handled here through [`value::Value`], a snapshot of the
//! facts about a Ruby object that the conversions read (its type tag, whether
//! it is typed data, whether it is a kind of `Time`, and its class name).
//! Everything that has to talk to a running Ruby interpreter is done by the
//! caller, which hands the results to the functions of this crate.

pub mod decimal;
pub mod error;
pub mod r_regexp;
pub mod time;
pub mod value;
