use magnus::error::ExceptionClass;
use magnus::r_regexp::RRegexp;
use magnus::time::Time;
use magnus::value::{RTypedData, Value, ValueType};

fn value(raw: usize, value_type: ValueType, typed_data: bool, kind_of_time: bool, class: &str) -> Value {
    Value::new(raw, value_type, typed_data, kind_of_time, class.to_string()).unwrap()
}

#[test]
fn value_zero_word_is_false() {
    assert!(Value::new(0, ValueType::False, false, false, "FalseClass".to_string()).is_some());
    assert!(Value::new(0, ValueType::Regexp, false, false, "Regexp".to_string()).is_none());
    let v = value(0x55d0_0000_1230, ValueType::RString, false, false, "String");
    assert_eq!(v.as_raw(), 0x55d0_0000_1230);
    assert_eq!(v.rb_type(), ValueType::RString);
    assert_eq!(v.classname(), "String");
}

#[test]
fn regexp_from_value() {
    let re = value(0x7f00_0000_0040, ValueType::Regexp, false, false, "Regexp");
    let r = RRegexp::from_value(re).unwrap();
    assert_eq!(r.as_value().as_raw(), 0x7f00_0000_0040);
    assert!(RRegexp::from_value(value(1, ValueType::Fixnum, false, false, "Integer")).is_none());
    assert!(RRegexp::from_value(value(0, ValueType::False, false, false, "FalseClass")).is_none());
}

#[test]
fn regexp_try_convert() {
    let re = value(0x7f00_0000_0040, ValueType::Regexp, false, false, "Regexp");
    assert!(RRegexp::try_convert(&re).is_ok());
    let err = RRegexp::try_convert(&value(1, ValueType::Fixnum, false, false, "Integer")).unwrap_err();
    assert!(err.is_kind_of(ExceptionClass::TypeError));
    assert_eq!(err.message, "no implicit conversion of Integer into Regexp");
}

#[test]
fn time_from_value() {
    let time = value(0x7f00_0000_0080, ValueType::Data, true, true, "Time");
    let t = Time::from_value(time).unwrap();
    assert_eq!(t.as_value().as_raw(), 0x7f00_0000_0080);
    // typed data of another class
    assert!(Time::from_value(value(0x7f00_0000_00c0, ValueType::Data, true, false, "Thing")).is_none());
    // untyped data
    assert!(Time::from_value(value(0x7f00_0000_00c0, ValueType::Data, false, true, "Time")).is_none());
    assert!(Time::from_value(value(1, ValueType::Fixnum, false, false, "Integer")).is_none());
    assert!(RTypedData::from_value(value(0x7f00_0000_00c0, ValueType::Data, true, false, "Thing")).is_some());
}

#[test]
fn time_try_convert() {
    for (v, class) in [
        (value(8, ValueType::Nil, false, false, "NilClass"), "NilClass"),
        (value(1, ValueType::Fixnum, false, false, "Integer"), "Integer"),
    ] {
        let err = Time::try_convert(v).unwrap_err();
        assert!(err.is_kind_of(ExceptionClass::TypeError));
        assert_eq!(err.message, format!("no implicit conversion of {class} into Time"));
    }
    assert!(Time::try_convert(value(0x7f00_0000_0080, ValueType::Data, true, true, "Time")).is_ok());
}
