//! Ruby values, as the conversions of this crate see them.

use vstd::prelude::*;

verus! {

/// The type tag of a Ruby value (`ruby_value_type`).
#[derive(Clone, Copy, Debug, PartialEq, Eq, Structural)]
pub enum ValueType {
    NoneType,
    Object,
    Class,
    Module,
    Float,
    RString,
    Regexp,
    Array,
    Hash,
    Struct,
    Bignum,
    File,
    Data,
    Match,
    Complex,
    Rational,
    Nil,
    True,
    False,
    Symbol,
    Fixnum,
    Undef,
    IMemo,
    Node,
    IClass,
    Zombie,
    Moved,
}

/// A Ruby value: the `VALUE` word together with the facts about the object it
/// denotes that the conversions of this crate read from the interpreter.
///
/// Only `false` is represented by the all-zero `VALUE` word, which this type
/// keeps as its invariant.
#[derive(Debug)]
pub struct Value {
    raw: usize,
    value_type: ValueType,
    typed_data: bool,
    kind_of_time: bool,
    class_name: String,
}

impl Value {
    #[verifier::type_invariant]
    spec fn inv(self) -> bool {
        self.raw == 0 ==> self.value_type == ValueType::False
    }

    /// The `VALUE` word.
    pub closed spec fn spec_raw(&self) -> usize {
        self.raw
    }

    /// The type tag of the value (`rb_type`).
    pub closed spec fn spec_value_type(&self) -> ValueType {
        self.value_type
    }

    /// Whether the value is typed data (`RTYPEDDATA_P`).
    pub closed spec fn spec_typed_data(&self) -> bool {
        self.typed_data
    }

    /// Whether the value is a kind of Ruby's `Time` class.
    pub closed spec fn spec_kind_of_time(&self) -> bool {
        self.kind_of_time
    }

    /// The name of the value's class.
    pub closed spec fn spec_class_name(&self) -> Seq<char> {
        self.class_name@
    }

    /// Builds a value from the facts read from the interpreter; `None` when
    /// `raw` is zero for a value other than `false`, which no Ruby value is.
    pub fn new(
        raw: usize,
        value_type: ValueType,
        typed_data: bool,
        kind_of_time: bool,
        class_name: String,
    ) -> (r: Option<Value>)
        ensures
            r is Some <==> (raw == 0 ==> value_type == ValueType::False),
            r matches Some(v) ==> {
                &&& v.spec_raw() == raw
                &&& v.spec_value_type() == value_type
                &&& v.spec_typed_data() == typed_data
                &&& v.spec_kind_of_time() == kind_of_time
                &&& v.spec_class_name() == class_name@
            },
    {
        if raw == 0 && value_type != ValueType::False {
            None
        } else {
            Some(Value { raw, value_type, typed_data, kind_of_time, class_name })
        }
    }

    /// The `VALUE` word.
    pub fn as_raw(&self) -> (r: usize)
        ensures
            r == self.spec_raw(),
    {
        self.raw
    }

    /// The type tag of the value.
    pub fn rb_type(&self) -> (t: ValueType)
        ensures
            t == self.spec_value_type(),
    {
        self.value_type
    }

    /// Whether the value is typed data.
    pub fn is_typed_data(&self) -> (b: bool)
        ensures
            b == self.spec_typed_data(),
    {
        self.typed_data
    }

    /// Whether the value is a kind of `Time`.
    pub fn is_kind_of_time(&self) -> (b: bool)
        ensures
            b == self.spec_kind_of_time(),
    {
        self.kind_of_time
    }

    /// The name of the value's class.
    pub fn classname(&self) -> (s: &str)
        ensures
            s@ == self.spec_class_name(),
    {
        self.class_name.as_str()
    }
}

impl Clone for Value {
    fn clone(&self) -> (r: Value)
        ensures
            r == *self,
    {
        proof {
            use_type_invariant(self);
        }
        Value {
            raw: self.raw,
            value_type: self.value_type,
            typed_data: self.typed_data,
            kind_of_time: self.kind_of_time,
            class_name: self.class_name.clone(),
        }
    }
}

/// A value whose `VALUE` word is not zero.
#[derive(Debug)]
pub struct NonZeroValue(Value);

impl Clone for NonZeroValue {
    fn clone(&self) -> (r: NonZeroValue)
        ensures
            r == *self,
    {
        proof {
            use_type_invariant(self);
        }
        NonZeroValue(self.0.clone())
    }
}

impl NonZeroValue {
    #[verifier::type_invariant]
    spec fn inv(self) -> bool {
        self.0.spec_raw() != 0
    }

    /// The wrapped value.
    pub closed spec fn spec_value(&self) -> Value {
        self.0
    }

    /// Wraps `val`, which is not `false` and so has a non-zero word.
    pub fn new(val: Value) -> (r: NonZeroValue)
        requires
            val.spec_value_type() != ValueType::False,
        ensures
            r.spec_value() == val,
    {
        proof {
            use_type_invariant(&val);
        }
        NonZeroValue(val)
    }

    /// The wrapped value.
    pub fn get_ref(&self) -> (v: &Value)
        ensures
            *v == self.spec_value(),
            v.spec_raw() != 0,
    {
        proof {
            use_type_invariant(self);
        }
        &self.0
    }
}

/// A value known to be typed data (`T_DATA` with a data type).
#[derive(Debug)]
pub struct RTypedData(NonZeroValue);

impl Clone for RTypedData {
    fn clone(&self) -> (r: RTypedData)
        ensures
            r == *self,
    {
        RTypedData(self.0.clone())
    }
}

impl RTypedData {
    /// The wrapped value.
    pub closed spec fn spec_value(&self) -> Value {
        self.0.spec_value()
    }

    /// `Some` exactly when `val` is typed data.
    pub fn from_value(val: Value) -> (r: Option<RTypedData>)
        ensures
            r is Some <==> (val.spec_value_type() == ValueType::Data && val.spec_typed_data()),
            r matches Some(d) ==> d.spec_value() == val,
    {
        if val.rb_type() == ValueType::Data && val.is_typed_data() {
            Some(RTypedData(NonZeroValue::new(val)))
        } else {
            None
        }
    }

    /// The wrapped value.
    pub fn as_value(&self) -> (v: &Value)
        ensures
            *v == self.spec_value(),
    {
        self.0.get_ref()
    }
}

} // verus!
