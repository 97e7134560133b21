//! Constants and small helpers of the classic API: option bits, the packing of
//! reserved slot counts into class flags, result conversion, and the slot
//! lookup of the engine's object layout.

use vstd::prelude::*;
use crate::jsval_layout::JSVal;

verus! {

pub const JSOPTION_STRICT: u32 = 0b00000000000001u32;
pub const JSOPTION_WERROR: u32 = 0b00000000000010u32;
pub const JSOPTION_VAROBJFIX: u32 = 0b00000000000100u32;
pub const JSOPTION_METHODJIT: u32 = 1u32 << 14u32;
pub const JSOPTION_TYPE_INFERENCE: u32 = 1u32 << 18u32;

pub const default_heapsize: u32 = 8_u32 * 1024_u32 * 1024_u32;
pub const default_stacksize: usize = 8192;

/// The engine's boolean for failure.
pub const ERR: i32 = 0_i32;

pub const JSVAL_TAG_MAX_DOUBLE: u64 = 0x1FFF0;

pub const JSVAL_TYPE_DOUBLE: u64 = 0x00;
pub const JSVAL_TYPE_INT32: u64 = 0x01;
pub const JSVAL_TYPE_UNDEFINED: u64 = 0x02;
pub const JSVAL_TYPE_BOOLEAN: u64 = 0x03;
pub const JSVAL_TYPE_MAGIC: u64 = 0x04;
pub const JSVAL_TYPE_STRING: u64 = 0x05;
pub const JSVAL_TYPE_NULL: u64 = 0x06;
pub const JSVAL_TYPE_OBJECT: u64 = 0x07;
pub const JSVAL_TYPE_UNKNOWN: u64 = 0x20;

pub const JSVAL_TAG_SHIFT: u64 = 47;

/// Words of a few values; only meaningful on 64-bit targets. `JSVAL_VOID` is
/// built from the out-of-band type code and so carries the double tag.
pub const JSVAL_VOID: u64 = (JSVAL_TAG_MAX_DOUBLE | JSVAL_TYPE_UNKNOWN) << JSVAL_TAG_SHIFT;
pub const JSVAL_NULL: u64 = (JSVAL_TAG_MAX_DOUBLE | JSVAL_TYPE_NULL) << JSVAL_TAG_SHIFT;
pub const JSVAL_ZERO: u64 = (JSVAL_TAG_MAX_DOUBLE | JSVAL_TYPE_INT32) << JSVAL_TAG_SHIFT;
pub const JSVAL_ONE: u64 = ((JSVAL_TAG_MAX_DOUBLE | JSVAL_TYPE_INT32) << JSVAL_TAG_SHIFT) | 1;
pub const JSVAL_FALSE: u64 = (JSVAL_TAG_MAX_DOUBLE | JSVAL_TYPE_BOOLEAN) << JSVAL_TAG_SHIFT;
pub const JSVAL_TRUE: u64 = ((JSVAL_TAG_MAX_DOUBLE | JSVAL_TYPE_BOOLEAN) << JSVAL_TAG_SHIFT) | 1;

pub const JSPROP_ENUMERATE: u32 = 0x01;
pub const JSPROP_READONLY: u32 = 0x02;
pub const JSPROP_SHARED: u32 = 0x40;
pub const JSPROP_NATIVE_ACCESSORS: u32 = 0x08;

pub const JSCLASS_RESERVED_SLOTS_SHIFT: u32 = 8;
pub const JSCLASS_RESERVED_SLOTS_WIDTH: u32 = 8;
/// `(1 << JSCLASS_RESERVED_SLOTS_WIDTH) - 1`.
pub const JSCLASS_RESERVED_SLOTS_MASK: u32 = 0xff;
pub const JSCLASS_HIGH_FLAGS_SHIFT: u32 = JSCLASS_RESERVED_SLOTS_SHIFT + JSCLASS_RESERVED_SLOTS_WIDTH;
/// `1 << (JSCLASS_HIGH_FLAGS_SHIFT + 1)`.
pub const JSCLASS_IS_GLOBAL: u32 = 0x2_0000;

/// The flag bits that hold a class's reserved slot count.
pub open spec fn reserved_slots_field(flags: u32) -> int {
    (flags as int / 0x100) % 0x100
}

/// The slot count of a global class: three per standard prototype of the
/// engine, plus 24.
pub open spec fn global_slot_count(proto_limit: u32) -> int {
    proto_limit * 3 + 24
}

/// `JSCLASS_GLOBAL_SLOT_COUNT` of an engine with `proto_limit` standard
/// prototypes.
pub fn JSCLASS_GLOBAL_SLOT_COUNT(proto_limit: u32) -> (r: u32)
    requires
        global_slot_count(proto_limit) <= u32::MAX,
    ensures
        r == global_slot_count(proto_limit),
{
    proto_limit * 3 + 24
}

/// Class flags that reserve `n` slots: `n` modulo 256, placed in bits 8..15.
pub fn JSCLASS_HAS_RESERVED_SLOTS(n: u32) -> (r: u32)
    ensures
        r == (n as int % 0x100) * 0x100,
        reserved_slots_field(r) == n as int % 0x100,
        r as int % 0x100 == 0,
        r < 0x1_0000,
{
    assert((n & 0xffu32) << 8u32 == (n % 0x100) * 0x100) by (bit_vector);
    (n & JSCLASS_RESERVED_SLOTS_MASK) << JSCLASS_RESERVED_SLOTS_SHIFT
}

/// `Ok` unless `n` is the engine's failure value.
pub fn result(n: i32) -> (r: Result<(), ()>)
    ensures
        r is Ok <==> n != ERR,
{
    if n != ERR {
        Ok(())
    } else {
        Err(())
    }
}

/// `Ok` with the object's address unless it is the null address.
pub fn result_obj(o: u64) -> (r: Result<u64, ()>)
    ensures
        o != 0 ==> r == Ok::<u64, ()>(o),
        o == 0 ==> r is Err,
{
    if o != 0 {
        Ok(o)
    } else {
        Err(())
    }
}

/// Bit position of the fixed slot count in a shape's slot info.
pub const FIXED_SLOTS_SHIFT: u32 = 27;

/// The slots of an object as the engine lays them out: the first
/// `numFixedSlots()` slots live inline after the object, the rest in a
/// separately allocated array.
pub struct Object {
    /// The slot info word of the object's shape.
    pub slotInfo: u32,
    /// The inline slots.
    pub fixedSlots: Vec<JSVal>,
    /// The out-of-line slots.
    pub slots: Vec<JSVal>,
}

impl Object {
    /// The number of inline slots of the object's shape.
    pub open spec fn spec_num_fixed(&self) -> int {
        self.slotInfo as int / 0x800_0000
    }

    /// Slot `slot` exists in this layout.
    pub open spec fn has_slot(&self, slot: usize) -> bool {
        if slot < self.spec_num_fixed() {
            slot < self.fixedSlots@.len()
        } else {
            slot - self.spec_num_fixed() < self.slots@.len()
        }
    }

    /// The value of slot `slot`.
    pub open spec fn spec_slot(&self, slot: usize) -> JSVal {
        if slot < self.spec_num_fixed() {
            self.fixedSlots@[slot as int]
        } else {
            self.slots@[slot - self.spec_num_fixed()]
        }
    }

    /// The number of inline slots: the top five bits of the slot info.
    pub fn numFixedSlots(&self) -> (r: usize)
        ensures
            r == self.spec_num_fixed(),
    {
        let info = self.slotInfo;
        assert(info >> 27u32 == info / 0x800_0000) by (bit_vector);
        (info >> FIXED_SLOTS_SHIFT) as usize
    }

    /// The inline slots.
    pub fn fixedSlots(&self) -> (r: &Vec<JSVal>)
        ensures
            r == &self.fixedSlots,
    {
        &self.fixedSlots
    }

    /// The value of slot `slot`: inline below the fixed count, else in the
    /// out-of-line array.
    pub fn slotVal(&self, slot: usize) -> (r: JSVal)
        requires
            self.has_slot(slot),
        ensures
            r == self.spec_slot(slot),
    {
        let nfixed = self.numFixedSlots();
        if slot < nfixed {
            return self.fixedSlots()[slot];
        }
        self.slots[slot - nfixed]
    }
}

/// The value of reserved slot `slot` of `obj`.
pub fn GetReservedSlot(obj: &Object, slot: usize) -> (r: JSVal)
    requires
        obj.has_slot(slot),
    ensures
        r == obj.spec_slot(slot),
{
    obj.slotVal(slot)
}

} // verus!
