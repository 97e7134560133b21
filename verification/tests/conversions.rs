use js::conversions::{
    latin1_to_string, sequence_object, SequenceConversion, SequenceStep, Conversion, ConversionBehavior, FromJSValConvertible, ToJSValConvertible,
};
use js::rust::MutableHandle;
use js::jsval::{
    BooleanValue, DoubleValue, Int32Value, JSVal, NullValue, ObjectValue, StringValue,
    UndefinedValue,
};

fn to_js<T: ToJSValConvertible>(x: &T) -> JSVal {
    let mut v = UndefinedValue();
    x.to_jsval(MutableHandle::new(&mut v));
    v
}

#[test]
fn to_jsval_values() {
    assert_eq!(to_js(&()), UndefinedValue());
    assert_eq!(to_js(&true), BooleanValue(true));
    assert_eq!(to_js(&-5i8), Int32Value(-5));
    assert_eq!(to_js(&200u8), Int32Value(200));
    assert_eq!(to_js(&-300i16), Int32Value(-300));
    assert_eq!(to_js(&60000u16), Int32Value(60000));
    assert_eq!(to_js(&7i32), Int32Value(7));
    assert_eq!(to_js(&7u32), Int32Value(7));
    assert_eq!(to_js(&3_000_000_000u32).to_double(), 3_000_000_000f64.to_bits());
    assert_eq!(to_js(&None::<i32>), NullValue());
    assert_eq!(to_js(&Some(9i32)), Int32Value(9));
}

#[test]
fn integer_roundtrips() {
    for b in [ConversionBehavior::Default, ConversionBehavior::EnforceRange, ConversionBehavior::Clamp] {
        for x in [i8::MIN, -1, 0, 1, i8::MAX] {
            assert_eq!(i8::from_jsval(&to_js(&x), b.clone()), Conversion::Converted(x));
        }
        for x in [0u8, 1, 255] {
            assert_eq!(u8::from_jsval(&to_js(&x), b.clone()), Conversion::Converted(x));
        }
        for x in [i16::MIN, 0, i16::MAX] {
            assert_eq!(i16::from_jsval(&to_js(&x), b.clone()), Conversion::Converted(x));
        }
        for x in [0u16, u16::MAX] {
            assert_eq!(u16::from_jsval(&to_js(&x), b.clone()), Conversion::Converted(x));
        }
        for x in [i32::MIN, 0, i32::MAX] {
            assert_eq!(i32::from_jsval(&to_js(&x), b.clone()), Conversion::Converted(x));
        }
        assert_eq!(u32::from_jsval(&to_js(&123u32), b.clone()), Conversion::Converted(123));
        assert_eq!(u32::from_jsval(&to_js(&u32::MAX), b.clone()), Conversion::NeedsEngine);
    }
}

#[test]
fn default_wraps() {
    let v = Int32Value(300);
    assert_eq!(i8::from_jsval(&v, ConversionBehavior::Default), Conversion::Converted(44));
    assert_eq!(u8::from_jsval(&v, ConversionBehavior::Default), Conversion::Converted(44));
    let m = Int32Value(-1);
    assert_eq!(u8::from_jsval(&m, ConversionBehavior::Default), Conversion::Converted(255));
    assert_eq!(u16::from_jsval(&m, ConversionBehavior::Default), Conversion::Converted(65535));
    assert_eq!(u32::from_jsval(&m, ConversionBehavior::Default), Conversion::Converted(u32::MAX));
    assert_eq!(u64::from_jsval(&m, ConversionBehavior::Default), Conversion::Converted(u64::MAX));
    assert_eq!(i64::from_jsval(&m, ConversionBehavior::Default), Conversion::Converted(-1));
    assert_eq!(i16::from_jsval(&Int32Value(40000), ConversionBehavior::Default), Conversion::Converted(-25536));
}

#[test]
fn enforce_range_errors() {
    let v = Int32Value(300);
    assert_eq!(i8::from_jsval(&v, ConversionBehavior::EnforceRange), Conversion::TypeError);
    assert_eq!(u8::from_jsval(&v, ConversionBehavior::EnforceRange), Conversion::TypeError);
    let m = Int32Value(-1);
    assert_eq!(u32::from_jsval(&m, ConversionBehavior::EnforceRange), Conversion::TypeError);
    assert_eq!(u64::from_jsval(&m, ConversionBehavior::EnforceRange), Conversion::TypeError);
    assert_eq!(i64::from_jsval(&m, ConversionBehavior::EnforceRange), Conversion::Converted(-1));
}

#[test]
fn clamp_limits() {
    assert_eq!(i8::from_jsval(&Int32Value(300), ConversionBehavior::Clamp), Conversion::Converted(127));
    assert_eq!(i8::from_jsval(&Int32Value(-300), ConversionBehavior::Clamp), Conversion::Converted(-128));
    assert_eq!(u16::from_jsval(&Int32Value(-5), ConversionBehavior::Clamp), Conversion::Converted(0));
    assert_eq!(u16::from_jsval(&Int32Value(70000), ConversionBehavior::Clamp), Conversion::Converted(65535));
}

#[test]
fn engine_cases() {
    let d = DoubleValue(2.5f64.to_bits());
    assert_eq!(i32::from_jsval(&d, ConversionBehavior::Default), Conversion::NeedsEngine);
    let s = StringValue(0x1000);
    assert_eq!(bool::from_jsval(&s, ()), Conversion::NeedsEngine);
    let o = ObjectValue(0x1000);
    assert_eq!(u8::from_jsval(&o, ConversionBehavior::Clamp), Conversion::NeedsEngine);
}

#[test]
fn booleans_and_options() {
    assert_eq!(bool::from_jsval(&BooleanValue(true), ()), Conversion::Converted(true));
    assert_eq!(bool::from_jsval(&Int32Value(0), ()), Conversion::Converted(false));
    assert_eq!(Option::<i32>::from_jsval(&NullValue(), ConversionBehavior::Default), Conversion::Converted(None));
    assert_eq!(Option::<i32>::from_jsval(&UndefinedValue(), ConversionBehavior::Default), Conversion::Converted(None));
    assert_eq!(Option::<i32>::from_jsval(&Int32Value(4), ConversionBehavior::Default), Conversion::Converted(Some(4)));
    assert_eq!(Option::<u8>::from_jsval(&Int32Value(400), ConversionBehavior::EnforceRange), Conversion::TypeError);
    assert_eq!(Option::<bool>::from_jsval(&NullValue(), ()), Conversion::Converted(None));
}

#[test]
fn latin1() {
    assert_eq!(latin1_to_string(&[]), "");
    assert_eq!(latin1_to_string(b"abc"), "abc");
    assert_eq!(latin1_to_string(&[0x41, 0xe9, 0xff]), "A\u{e9}\u{ff}");
}

fn run<T>(outcomes: Vec<Result<Option<T>, ()>>) -> (Result<Vec<T>, ()>, usize) {
    let mut conversion = SequenceConversion::new();
    let mut taken = 0;
    for outcome in outcomes {
        taken += 1;
        match conversion.step(outcome) {
            SequenceStep::Next => {}
            SequenceStep::Finished => return (Ok(conversion.finish()), taken),
            SequenceStep::Failed => return (Err(()), taken),
        }
    }
    panic!("the outcomes ran out before the end");
}

#[test]
fn sequences_convert_in_order() {
    let (r, taken) = run(vec![Ok(Some(1i32)), Ok(Some(2)), Ok(Some(3)), Ok(None), Ok(Some(4))]);
    assert_eq!(r, Ok(vec![1, 2, 3]));
    assert_eq!(taken, 4);
    let (r, _) = run::<u32>(vec![Ok(None)]);
    assert_eq!(r, Ok(Vec::new()));
}

#[test]
fn sets_convert_by_iteration() {
    let mut set = std::collections::BTreeSet::new();
    set.insert(2i32);
    set.insert(1);
    set.insert(3);
    let mut iter = set.into_iter();
    let mut conversion = SequenceConversion::new();
    let items = loop {
        match conversion.step(Ok(iter.next())) {
            SequenceStep::Next => {}
            SequenceStep::Finished => break conversion.finish(),
            SequenceStep::Failed => unreachable!(),
        }
    };
    assert_eq!(items, vec![1, 2, 3]);
}

#[test]
fn sequences_stop_at_the_first_failure() {
    let (r, taken) = run(vec![Ok(Some(0u32)), Ok(Some(1)), Err(()), Ok(Some(3)), Ok(None)]);
    assert_eq!(r, Err(()));
    assert_eq!(taken, 3);
}

#[test]
fn conversion_reports_being_over() {
    let mut conversion = SequenceConversion::<u8>::new();
    assert!(!conversion.over());
    assert_eq!(conversion.step(Ok(Some(7))), SequenceStep::Next);
    assert!(!conversion.over());
    assert_eq!(conversion.step(Ok(None)), SequenceStep::Finished);
    assert!(conversion.over());
    assert_eq!(conversion.finish(), vec![7]);
}

#[test]
fn only_objects_convert_to_sequences() {
    assert_eq!(sequence_object(&ObjectValue(0x1000)), Conversion::Converted(0x1000));
    assert_eq!(sequence_object(&Int32Value(1)), Conversion::TypeError);
    assert_eq!(sequence_object(&NullValue()), Conversion::TypeError);
    assert_eq!(sequence_object(&StringValue(0x20)), Conversion::TypeError);
}

#[test]
fn to_jsval_writes_through_the_handle() {
    let mut v = UndefinedValue();
    {
        let h = MutableHandle::new(&mut v);
        5i32.to_jsval(h);
    }
    assert_eq!(v, Int32Value(5));
}
