use js::jsval::{BooleanValue, DoubleValue, Int32Value, JSVal, NullValue, ObjectValue, StringValue, UndefinedValue};
use js::rust::{
    is_dom_class, stack_quotas, EngineState, Handle, JSClass, MutableHandle, NewRuntimeStep,
    Runtime, ThreadContext, ToBoolean, ToInt32, ToInt64, ToNumber, ToString, ToUint16, ToUint32,
    ToUint64, SIMPLE_GLOBAL_CLASS,
};

#[test]
fn to_boolean_fast_paths() {
    assert_eq!(ToBoolean(&BooleanValue(true)), Some(true));
    assert_eq!(ToBoolean(&BooleanValue(false)), Some(false));
    assert_eq!(ToBoolean(&Int32Value(0)), Some(false));
    assert_eq!(ToBoolean(&Int32Value(-7)), Some(true));
    assert_eq!(ToBoolean(&NullValue()), Some(false));
    assert_eq!(ToBoolean(&UndefinedValue()), Some(false));
    assert_eq!(ToBoolean(&DoubleValue(0.0f64.to_bits())), Some(false));
    assert_eq!(ToBoolean(&DoubleValue((-0.0f64).to_bits())), Some(false));
    assert_eq!(ToBoolean(&DoubleValue(f64::NAN.to_bits())), Some(false));
    assert_eq!(ToBoolean(&DoubleValue(0.5f64.to_bits())), Some(true));
    assert_eq!(ToBoolean(&DoubleValue(f64::NEG_INFINITY.to_bits())), Some(true));
    assert_eq!(ToBoolean(&JSVal { data: 0xFFFB_0000_0000_0000 }), Some(true));
    assert_eq!(ToBoolean(&StringValue(0x10)), None);
    assert_eq!(ToBoolean(&ObjectValue(0x10)), None);
}

#[test]
fn integer_fast_paths() {
    let m = Int32Value(-2);
    assert_eq!(ToInt32(&m), Some(-2));
    assert_eq!(ToUint32(&m), Some(u32::MAX - 1));
    assert_eq!(ToUint16(&m), Some(u16::MAX - 1));
    assert_eq!(ToInt64(&m), Some(-2));
    assert_eq!(ToUint64(&m), Some(u64::MAX - 1));
    let d = DoubleValue(1.0f64.to_bits());
    assert_eq!(ToInt32(&d), None);
    assert_eq!(ToUint64(&d), None);
    assert_eq!(ToNumber(&Int32Value(12)), Some(12.0f64.to_bits()));
    assert_eq!(ToNumber(&d), Some(1.0f64.to_bits()));
    assert_eq!(ToNumber(&BooleanValue(true)), None);
    assert_eq!(ToString(&StringValue(0x20)), Some(0x20));
    assert_eq!(ToString(&Int32Value(1)), None);
}

#[test]
fn runtime_lifecycle() {
    let mut engine = EngineState::new();
    assert_eq!(engine.begin_runtime(), NewRuntimeStep::InitEngine);
    engine.record_parent(0x5000);
    assert_eq!(engine.begin_runtime(), NewRuntimeStep::WithParent(0x5000));
    assert!(!engine.end_runtime());
    assert!(!engine.shut_down);
    assert!(engine.end_runtime());
    assert!(engine.shut_down);
    assert_eq!(engine.parent, 0);
    assert_eq!(engine.begin_runtime(), NewRuntimeStep::Refused);
    assert_eq!(engine.outstanding, 0);
}

#[test]
fn thread_context() {
    let mut engine = EngineState::new();
    assert_eq!(engine.begin_runtime(), NewRuntimeStep::InitEngine);
    engine.record_parent(0x5000);
    let mut thread = ThreadContext::new();
    let rt = Runtime::start(&mut thread, &engine, 0x77);
    assert_eq!(Runtime::get(&thread), 0x77);
    assert_eq!(rt.cx(), 0x77);
    assert_eq!(rt.cx(), Runtime::get(&thread));
    let mut other_thread = ThreadContext::new();
    assert_eq!(engine.begin_runtime(), NewRuntimeStep::WithParent(0x5000));
    let rt2 = Runtime::start(&mut other_thread, &engine, 0x88);
    assert_eq!(rt.rt(), 0x5000);
    assert_eq!(rt2.rt(), rt.rt());
    rt2.finish(&mut other_thread);
    assert!(!engine.end_runtime());
    assert_eq!(rt.rt(), 0x5000);
    rt.finish(&mut thread);
    assert!(engine.end_runtime());
    assert_eq!(engine.begin_runtime(), NewRuntimeStep::Refused);
}

#[test]
fn quotas() {
    let (system, trusted, untrusted) = stack_quotas();
    assert_eq!(system, 1024 * 1024);
    assert_eq!(trusted, 1024 * 1024 - 10 * 1024);
    assert_eq!(untrusted, 1024 * 1024 - 10 * 1024 - 8 * 12800);
}

#[test]
fn classes() {
    let c = SIMPLE_GLOBAL_CLASS(50);
    assert_eq!(c.name, "Global");
    assert_eq!(c.flags, 0x2_0000 | (((50 * 3 + 24) & 0xff) << 8));
    assert!(!is_dom_class(&c));
    assert!(is_dom_class(&JSClass { name: "dom", flags: 0x10 }));
}

#[test]
fn handles() {
    let x = 5u32;
    let h = Handle::new(&x);
    assert_eq!(h.get(), 5);
    let mut y = 1u32;
    {
        let mut m = MutableHandle::new(&mut y);
        assert_eq!(m.get(), 1);
        m.set(9);
        assert_eq!(m.handle().get(), 9);
    }
    assert_eq!(y, 9);
}
