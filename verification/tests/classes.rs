use js::global::{assert_argument, assertion_message, basic_class, global_class};
use js::js::{
    result, result_obj, GetReservedSlot, Object, JSCLASS_GLOBAL_SLOT_COUNT,
    JSCLASS_HAS_RESERVED_SLOTS, JSCLASS_IS_GLOBAL, JSVAL_FALSE, JSVAL_NULL, JSVAL_ONE,
    JSVAL_TRUE, JSVAL_VOID, JSVAL_ZERO,
};
use js::jsfriendapi::new_jsjitinfo_bitfield_1;
use js::jsval_layout::{Int32Value, NullValue, UndefinedValue};

#[test]
fn reserved_slots() {
    assert_eq!(JSCLASS_HAS_RESERVED_SLOTS(0), 0);
    assert_eq!(JSCLASS_HAS_RESERVED_SLOTS(5), 0x500);
    assert_eq!(JSCLASS_HAS_RESERVED_SLOTS(0x1ff), 0xff00);
    assert_eq!(JSCLASS_GLOBAL_SLOT_COUNT(10), 54);
}

#[test]
fn global_classes() {
    let c = global_class(39);
    assert_eq!(c.name, "global");
    assert_eq!(c.flags, JSCLASS_IS_GLOBAL | JSCLASS_HAS_RESERVED_SLOTS(39 * 3 + 24 + 1));
    let b = basic_class("window", 0);
    assert_eq!(b.name, "window");
    assert_eq!(b.flags, 0x2_0000 | (25 << 8));
}

#[test]
fn results() {
    assert_eq!(result(1), Ok(()));
    assert_eq!(result(0), Err(()));
    assert_eq!(result_obj(0x40), Ok(0x40));
    assert_eq!(result_obj(0), Err(()));
}

#[test]
fn value_constants() {
    assert_eq!(JSVAL_NULL, NullValue().data);
    assert_eq!(JSVAL_ZERO, Int32Value(0).data);
    assert_eq!(JSVAL_ONE, Int32Value(1).data);
    assert_eq!(JSVAL_FALSE, 0xFFF9_8000_0000_0000);
    assert_eq!(JSVAL_TRUE, 0xFFF9_8000_0000_0001);
    assert_eq!(JSVAL_VOID, 0xFFF8_0000_0000_0000);
}

#[test]
fn reserved_slot_lookup() {
    let obj = Object {
        slotInfo: 2 << 27,
        fixedSlots: vec![Int32Value(10), Int32Value(11)],
        slots: vec![Int32Value(12), NullValue()],
    };
    assert_eq!(obj.numFixedSlots(), 2);
    assert_eq!(GetReservedSlot(&obj, 0), Int32Value(10));
    assert_eq!(GetReservedSlot(&obj, 1), Int32Value(11));
    assert_eq!(GetReservedSlot(&obj, 2), Int32Value(12));
    assert_eq!(GetReservedSlot(&obj, 3), NullValue());
}

#[test]
fn assert_native_helpers() {
    assert_eq!(assert_argument(&[]), UndefinedValue());
    assert_eq!(assert_argument(&[Int32Value(3), NullValue()]), Int32Value(3));
    assert_eq!(assertion_message("x > 1"), "JavaScript assertion failed: x > 1 is falsy!");
}

#[test]
fn jitinfo_packing() {
    let w = new_jsjitinfo_bitfield_1(2, 3, 0x45, true, false, true, false, false, true, 7);
    assert_eq!(w & 0xf, 2);
    assert_eq!((w >> 4) & 0xf, 3);
    assert_eq!((w >> 8) & 0xff, 0x45);
    assert_eq!((w >> 16) & 1, 1);
    assert_eq!((w >> 17) & 1, 0);
    assert_eq!((w >> 18) & 1, 1);
    assert_eq!((w >> 21) & 1, 1);
    assert_eq!(w >> 22, 7);
    assert_eq!(new_jsjitinfo_bitfield_1(0, 0, 0, false, false, false, false, false, false, 0), 0);
}
