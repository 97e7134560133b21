use js::jsval::{
    BooleanValue, DoubleValue, Int32Value, JSGCTraceKind, JSVal, NullValue, ObjectOrNullValue,
    ObjectValue, PrivateValue, StringValue, UInt32Value, UndefinedValue,
};
use js::number::{i32_to_double_bits, u32_to_double_bits};

#[test]
fn int32_roundtrip() {
    for i in [0i32, 1, -1, 42, i32::MAX, i32::MIN, -123456] {
        let v = Int32Value(i);
        assert!(v.is_int32());
        assert!(v.is_number());
        assert!(v.is_primitive());
        assert!(!v.is_double());
        assert!(!v.is_gcthing());
        assert_eq!(v.to_int32(), i);
    }
    assert_eq!(Int32Value(-1).asBits(), 0xFFF8_8000_FFFF_FFFF);
}

#[test]
fn boolean_roundtrip() {
    assert!(BooleanValue(true).to_boolean());
    assert!(!BooleanValue(false).to_boolean());
    assert!(BooleanValue(true).is_boolean());
    assert!(!BooleanValue(true).is_number());
    assert_eq!(BooleanValue(true).asBits(), 0xFFF9_8000_0000_0001);
}

#[test]
fn null_and_undefined() {
    let n = NullValue();
    assert!(n.is_null());
    assert!(n.is_null_or_undefined());
    assert!(n.is_object_or_null());
    assert!(!n.is_object());
    assert!(n.is_gcthing());
    assert!(!n.is_markable());
    assert_eq!(n.to_object_or_null(), 0);
    let u = UndefinedValue();
    assert!(u.is_undefined());
    assert!(u.is_null_or_undefined());
    assert!(!u.is_null());
    assert!(u.is_primitive());
    assert!(!u.is_number());
}

#[test]
fn double_values() {
    for d in [0.0f64, -0.0, 1.5, -2.25, f64::INFINITY, f64::MIN_POSITIVE] {
        let v = DoubleValue(d.to_bits());
        assert!(v.is_double());
        assert!(v.is_number());
        assert!(!v.is_int32());
        assert_eq!(f64::from_bits(v.to_double()), d);
    }
    let nan = DoubleValue(f64::NAN.to_bits());
    assert!(nan.is_double());
}

#[test]
fn uint32_values() {
    let small = UInt32Value(0x7fff_ffff);
    assert!(small.is_int32());
    assert_eq!(small.to_int32(), i32::MAX);
    let big = UInt32Value(0x8000_0000);
    assert!(big.is_double());
    assert_eq!(f64::from_bits(big.to_double()), 2147483648.0);
    let max = UInt32Value(u32::MAX);
    assert_eq!(max.to_double(), (u32::MAX as f64).to_bits());
}

#[test]
fn number_of_int32() {
    for i in [0i32, 1, -1, 3, 1000, -1000, i32::MAX, i32::MIN, 0x1234_5678] {
        assert_eq!(i32_to_double_bits(i), (i as f64).to_bits());
        assert_eq!(Int32Value(i).to_number(), (i as f64).to_bits());
    }
    for u in [0u32, 1, 7, 0x8000_0000, 0xdead_beef, u32::MAX] {
        assert_eq!(u32_to_double_bits(u), (u as f64).to_bits());
    }
    assert_eq!(DoubleValue(1.25f64.to_bits()).to_number(), 1.25f64.to_bits());
}

#[test]
fn string_and_object_values() {
    let addr = 0x7f00_1234_5670u64;
    let s = StringValue(addr);
    assert!(s.is_string());
    assert!(s.is_gcthing());
    assert!(s.is_markable());
    assert!(!s.is_object());
    assert_eq!(s.to_string(), addr);
    assert_eq!(s.trace_kind(), JSGCTraceKind::JSTRACE_STRING);
    let o = ObjectValue(addr);
    assert!(o.is_object());
    assert!(o.is_object_or_null());
    assert!(!o.is_primitive());
    assert_eq!(o.to_object(), addr);
    assert_eq!(o.to_gcthing(), addr);
    assert_eq!(o.trace_kind(), JSGCTraceKind::JSTRACE_OBJECT);
}

#[test]
fn object_or_null_values() {
    assert!(ObjectOrNullValue(0).is_null());
    let v = ObjectOrNullValue(0x1000);
    assert!(v.is_object());
    assert_eq!(v.to_object_or_null(), 0x1000);
}

#[test]
fn private_values() {
    let addr = 0x7fff_ffff_1230u64;
    let v = PrivateValue(addr);
    assert!(v.is_double());
    assert_eq!(v.to_private(), addr);
}

#[test]
fn symbols() {
    let v = JSVal { data: 0xFFFB_0000_0000_0000 };
    assert!(v.is_symbol());
    assert!(v.is_gcthing());
    assert!(v.is_primitive());
}

#[test]
fn object_or_null_roundtrip() {
    let null = NullValue();
    assert_eq!(null.to_object_or_null(), 0);
    assert_eq!(ObjectOrNullValue(null.to_object_or_null()), null);
    for addr in [8u64, 0x1000, 0x7fff_ffff_fff8] {
        let v = ObjectValue(addr);
        assert_eq!(v.to_object_or_null(), addr);
        assert_eq!(ObjectOrNullValue(v.to_object_or_null()), v);
    }
}

#[test]
fn markable_values_trace_by_kind() {
    assert_eq!(ObjectValue(0x1000).trace_kind(), JSGCTraceKind::JSTRACE_OBJECT);
    assert_eq!(StringValue(0x1000).trace_kind(), JSGCTraceKind::JSTRACE_STRING);
}
