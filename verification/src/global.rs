//! Handy functions for creating class objects.

use vstd::prelude::*;
use crate::js::{
    JSCLASS_IS_GLOBAL, JSCLASS_GLOBAL_SLOT_COUNT, JSCLASS_HAS_RESERVED_SLOTS, global_slot_count,
    reserved_slots_field,
};
use crate::rust::{JSClass, JSCLASS_IS_DOMJSCLASS};
use crate::jsval_layout::{JSVal, UndefinedValue, JSVAL_SHIFTED_TAG_UNDEFINED};
use vstd::string::StringExecFns;

verus! {

/// A global class named `name` that reserves one slot more than the engine's
/// global slot count (modulo 256). This is the name and flags of the class;
/// the hooks of the class record the engine reads are attached by whoever
/// hands the class to the engine.
pub fn basic_class(name: &'static str, proto_limit: u32) -> (r: JSClass)
    requires
        global_slot_count(proto_limit) + 1 <= u32::MAX,
    ensures
        r.name == name,
        r.flags == JSCLASS_IS_GLOBAL + ((global_slot_count(proto_limit) + 1) % 0x100) * 0x100,
{
    let count = JSCLASS_GLOBAL_SLOT_COUNT(proto_limit);
    let slots = JSCLASS_HAS_RESERVED_SLOTS(count + 1);
    assert(0x2_0000u32 | slots == 0x2_0000u32 + slots) by (bit_vector)
        requires slots < 0x1_0000;
    JSClass { name, flags: JSCLASS_IS_GLOBAL | slots }
}

/// The basic class named "global".
pub fn global_class(proto_limit: u32) -> (r: JSClass)
    requires
        global_slot_count(proto_limit) + 1 <= u32::MAX,
    ensures
        r.name@ == "global"@,
        r.flags == JSCLASS_IS_GLOBAL + ((global_slot_count(proto_limit) + 1) % 0x100) * 0x100,
{
    basic_class("global", proto_limit)
}

/// The flags of a basic class mark it global, reserve the global slot count
/// plus one (modulo 256), and do not mark it as a DOM class.
pub proof fn lemma_basic_class_flags(proto_limit: u32, flags: u32)
    requires
        global_slot_count(proto_limit) + 1 <= u32::MAX,
        flags == JSCLASS_IS_GLOBAL + ((global_slot_count(proto_limit) + 1) % 0x100) * 0x100,
    ensures
        flags & JSCLASS_IS_GLOBAL != 0,
        flags & JSCLASS_IS_DOMJSCLASS == 0,
        reserved_slots_field(flags) == (global_slot_count(proto_limit) + 1) % 0x100,
{
    let s: u32 = ((global_slot_count(proto_limit) + 1) % 0x100) as u32;
    assert(flags == 0x2_0000u32 + s * 0x100u32);
    assert(flags & 0x2_0000u32 != 0) by (bit_vector)
        requires s < 0x100, flags == 0x2_0000u32 + s * 0x100u32;
    assert(flags & 0x10u32 == 0) by (bit_vector)
        requires s < 0x100, flags == 0x2_0000u32 + s * 0x100u32;
}

/// The argument that the `assert` native checks: its first argument, or
/// `undefined` when called without arguments.
pub fn assert_argument(args: &[JSVal]) -> (r: JSVal)
    ensures
        args@.len() == 0 ==> r.data == JSVAL_SHIFTED_TAG_UNDEFINED,
        args@.len() > 0 ==> r == args@[0],
{
    if args.len() == 0 {
        UndefinedValue()
    } else {
        args[0]
    }
}

/// The error that the `assert` native reports for a falsy argument whose
/// source text is `source`.
pub fn assertion_message(source: &str) -> (r: String)
    ensures
        r@ == "JavaScript assertion failed: "@ + source@ + " is falsy!"@,
{
    let mut msg = "JavaScript assertion failed: ".to_owned();
    msg.append(source);
    msg.append(" is falsy!");
    msg
}

} // verus!
