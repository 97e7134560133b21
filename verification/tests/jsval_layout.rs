use js::jsval_layout::{
    BooleanValue, DoubleValue, Int32Value, NullValue, ObjectOrNullValue, ObjectValue,
    PrivateValue, StringValue, UInt32Value, UndefinedValue,
};

#[test]
fn layout_kinds() {
    assert!(NullValue().is_null());
    assert!(NullValue().is_object_or_null());
    assert!(!NullValue().is_markable());
    assert!(UndefinedValue().is_undefined());
    assert!(UndefinedValue().is_null_or_undefined());
    assert!(Int32Value(5).is_primitive());
    assert!(!Int32Value(5).is_double());
    assert!(BooleanValue(false).is_primitive());
    assert!(DoubleValue(3.5f64.to_bits()).is_double());
    assert!(UInt32Value(u32::MAX).is_double());
    assert!(!UInt32Value(12).is_double());
}

#[test]
fn layout_things() {
    let s = StringValue(0x4000);
    assert!(s.is_string());
    assert!(s.is_markable());
    assert_eq!(s.trace_kind(), 1);
    let o = ObjectValue(0x4000);
    assert!(o.is_object());
    assert_eq!(o.trace_kind(), 0);
    assert_eq!(o.to_object(), 0x4000);
    assert_eq!(o.to_gcthing(), 0x4000);
    assert_eq!(ObjectOrNullValue(0).data, NullValue().data);
    assert_eq!(ObjectOrNullValue(0x8).to_object_or_null(), 0x8);
    assert_eq!(PrivateValue(0x2468).to_private(), 0x2468);
    assert_eq!(NullValue().data, 0xFFFB_0000_0000_0000);
}
