use js::jsval::{BooleanValue, Int32Value, NullValue, ObjectValue, StringValue, UndefinedValue};
use js::wrap::{
    may_be_window, maybe_wrap_object_or_null_value, maybe_wrap_object_value, maybe_wrap_value,
    ObjectWrap, ValueWrap,
};

#[test]
fn strings_are_wrapped() {
    assert_eq!(maybe_wrap_value(&StringValue(0x1000)), ValueWrap::Wrap);
}

#[test]
fn objects_are_looked_at() {
    assert_eq!(maybe_wrap_value(&ObjectValue(0x7f00_1234_5678)), ValueWrap::Object(0x7f00_1234_5678));
    assert_eq!(
        maybe_wrap_object_or_null_value(&ObjectValue(0x2000)),
        ValueWrap::Object(0x2000)
    );
}

#[test]
fn other_values_are_kept() {
    for v in [Int32Value(3), BooleanValue(true), NullValue(), UndefinedValue()] {
        assert_eq!(maybe_wrap_value(&v), ValueWrap::Keep);
    }
    assert_eq!(maybe_wrap_object_or_null_value(&NullValue()), ValueWrap::Keep);
}

#[test]
fn object_decisions() {
    assert_eq!(maybe_wrap_object_value(1, 2, 0x10), ObjectWrap::Wrap);
    assert_eq!(maybe_wrap_object_value(1, 2, 0), ObjectWrap::Wrap);
    assert_eq!(maybe_wrap_object_value(5, 5, 0x10), ObjectWrap::Outerize);
    assert_eq!(maybe_wrap_object_value(5, 5, 0x2_0000), ObjectWrap::Keep);
}

#[test]
fn only_globals_may_be_windows() {
    assert!(may_be_window(0x2_0000));
    assert!(may_be_window(0x2_0010));
    assert!(!may_be_window(0x10));
    assert!(!may_be_window(0));
}
