//! The boxed value `Union_jsval_layout` of engines without symbols.
//!
//! Same word layout as `jsval`, with the type codes of that engine: strings
//! are 5, null 6 and objects 7. Its `trace_kind` is the engine's number:
//! 0 for objects, 1 for strings.

use vstd::prelude::*;
use crate::jsval::{
    tag_of, payload_of, boxed, u32_pattern, lemma_box, lemma_tag_payload,
    lemma_u32_pattern,
};
use crate::number::{double_bits_of_int, u32_to_double_bits, lemma_double_bits_positive};

verus! {

pub const JSVAL_TAG_SHIFT: u64 = 47;
pub const JSVAL_TAG_MAX_DOUBLE: u32 = 0x1FFF0;
pub const JSVAL_PAYLOAD_MASK: u64 = 0x00007FFFFFFFFFFF;

/// Type codes.
pub const JSVAL_TYPE_DOUBLE: u32 = 0x00;
pub const JSVAL_TYPE_INT32: u32 = 0x01;
pub const JSVAL_TYPE_UNDEFINED: u32 = 0x02;
pub const JSVAL_TYPE_BOOLEAN: u32 = 0x03;
pub const JSVAL_TYPE_MAGIC: u32 = 0x04;
pub const JSVAL_TYPE_STRING: u32 = 0x05;
pub const JSVAL_TYPE_NULL: u32 = 0x06;
pub const JSVAL_TYPE_OBJECT: u32 = 0x07;
/// Out-of-band type codes that never appear in a value.
pub const JSVAL_TYPE_UNKNOWN: u32 = 0x20;
pub const JSVAL_TYPE_MISSING: u32 = 0x21;

/// Tags: `JSVAL_TAG_MAX_DOUBLE | type`.
pub const JSVAL_TAG_DOUBLE: u32 = 0x1FFF0;
pub const JSVAL_TAG_INT32: u32 = 0x1FFF1;
pub const JSVAL_TAG_UNDEFINED: u32 = 0x1FFF2;
pub const JSVAL_TAG_BOOLEAN: u32 = 0x1FFF3;
pub const JSVAL_TAG_MAGIC: u32 = 0x1FFF4;
pub const JSVAL_TAG_STRING: u32 = 0x1FFF5;
pub const JSVAL_TAG_NULL: u32 = 0x1FFF6;
pub const JSVAL_TAG_OBJECT: u32 = 0x1FFF7;

/// Shifted tags.
pub const JSVAL_SHIFTED_TAG_MAX_DOUBLE: u64 = 0xFFF80000FFFFFFFF;
pub const JSVAL_SHIFTED_TAG_INT32: u64 = 0xFFF8800000000000;
pub const JSVAL_SHIFTED_TAG_UNDEFINED: u64 = 0xFFF9000000000000;
pub const JSVAL_SHIFTED_TAG_STRING: u64 = 0xFFFA800000000000;
pub const JSVAL_SHIFTED_TAG_BOOLEAN: u64 = 0xFFF9800000000000;
pub const JSVAL_SHIFTED_TAG_MAGIC: u64 = 0xFFFA000000000000;
pub const JSVAL_SHIFTED_TAG_NULL: u64 = 0xFFFB000000000000;
pub const JSVAL_SHIFTED_TAG_OBJECT: u64 = 0xFFFB800000000000;

pub open spec fn layout_is_undefined(bits: u64) -> bool { bits == JSVAL_SHIFTED_TAG_UNDEFINED }
pub open spec fn layout_is_null(bits: u64) -> bool { bits == JSVAL_SHIFTED_TAG_NULL }
pub open spec fn layout_is_double(bits: u64) -> bool { bits <= JSVAL_SHIFTED_TAG_MAX_DOUBLE }
pub open spec fn layout_is_primitive(bits: u64) -> bool { bits < JSVAL_SHIFTED_TAG_OBJECT }
pub open spec fn layout_is_string(bits: u64) -> bool { tag_of(bits) == JSVAL_TAG_STRING }
pub open spec fn layout_is_object(bits: u64) -> bool { bits >= JSVAL_SHIFTED_TAG_OBJECT }
pub open spec fn layout_is_object_or_null(bits: u64) -> bool { bits >= JSVAL_SHIFTED_TAG_NULL }
pub open spec fn layout_is_gcthing(bits: u64) -> bool { bits >= JSVAL_SHIFTED_TAG_STRING }
pub open spec fn layout_is_markable(bits: u64) -> bool {
    layout_is_gcthing(bits) && !layout_is_null(bits)
}
pub open spec fn layout_tag_in_range(bits: u64) -> bool { tag_of(bits) <= JSVAL_TAG_OBJECT }

/// The words that the constructors build.
pub open spec fn layout_int32_bits(i: i32) -> u64 { boxed(JSVAL_TAG_INT32, u32_pattern(i)) as u64 }
pub open spec fn layout_boolean_bits(b: bool) -> u64 {
    boxed(JSVAL_TAG_BOOLEAN, if b { 1 } else { 0 }) as u64
}
pub open spec fn layout_string_bits(addr: u64) -> u64 {
    boxed(JSVAL_TAG_STRING, addr as int) as u64
}
pub open spec fn layout_object_bits(addr: u64) -> u64 {
    boxed(JSVAL_TAG_OBJECT, addr as int) as u64
}
pub open spec fn layout_uint32_bits(u: u32) -> u64 {
    if u > 0x7fff_ffff { double_bits_of_int(u as int) } else { layout_int32_bits(u as i32) }
}

/// A boxed value.
#[derive(Clone, Copy, PartialEq, Eq, Structural, Debug)]
pub struct Union_jsval_layout {
    pub data: u64,
}

pub type JSVal = Union_jsval_layout;

/// The value with tag `tag` and payload `payload`.
fn BuildJSVal(tag: u32, payload: u64) -> (r: JSVal)
    requires
        tag <= 0x1FFFF,
        payload < 0x8000_0000_0000,
    ensures
        r.data == boxed(tag, payload as int),
{
    proof {
        lemma_box(tag, payload);
    }
    Union_jsval_layout { data: ((tag as u64) << JSVAL_TAG_SHIFT) | payload }
}

pub fn NullValue() -> (r: JSVal)
    ensures
        r.data == JSVAL_SHIFTED_TAG_NULL,
{
    BuildJSVal(JSVAL_TAG_NULL, 0)
}

pub fn UndefinedValue() -> (r: JSVal)
    ensures
        r.data == JSVAL_SHIFTED_TAG_UNDEFINED,
{
    BuildJSVal(JSVAL_TAG_UNDEFINED, 0)
}

pub fn Int32Value(i: i32) -> (r: JSVal)
    ensures
        r.data == layout_int32_bits(i),
{
    proof {
        lemma_u32_pattern(i);
    }
    BuildJSVal(JSVAL_TAG_INT32, i as u32 as u64)
}

/// The double whose IEEE-754 bits are `bits`.
pub fn DoubleValue(bits: u64) -> (r: JSVal)
    requires
        bits <= JSVAL_SHIFTED_TAG_MAX_DOUBLE,
    ensures
        r.data == bits,
{
    Union_jsval_layout { data: bits }
}

/// The number `ui`: an int32 value when it fits, else the double `ui`.
pub fn UInt32Value(ui: u32) -> (r: JSVal)
    ensures
        r.data == layout_uint32_bits(ui),
{
    if ui > 0x7fffffff {
        let bits = u32_to_double_bits(ui);
        DoubleValue(bits)
    } else {
        Int32Value(ui as i32)
    }
}

/// The string value of the string at address `addr`.
pub fn StringValue(addr: u64) -> (r: JSVal)
    requires
        addr < 0x8000_0000_0000,
    ensures
        r.data == layout_string_bits(addr),
{
    BuildJSVal(JSVAL_TAG_STRING, addr)
}

pub fn BooleanValue(b: bool) -> (r: JSVal)
    ensures
        r.data == layout_boolean_bits(b),
{
    BuildJSVal(JSVAL_TAG_BOOLEAN, if b { 1 } else { 0 })
}

/// The object value of the object at address `addr`.
pub fn ObjectValue(addr: u64) -> (r: JSVal)
    requires
        addr < 0x8000_0000_0000,
    ensures
        r.data == layout_object_bits(addr),
{
    BuildJSVal(JSVAL_TAG_OBJECT, addr)
}

/// `null` for the null address, else the object value of `addr`.
pub fn ObjectOrNullValue(addr: u64) -> (r: JSVal)
    requires
        addr < 0x8000_0000_0000,
    ensures
        r.data == (if addr == 0 { JSVAL_SHIFTED_TAG_NULL } else { layout_object_bits(addr) }),
{
    if addr == 0 {
        NullValue()
    } else {
        ObjectValue(addr)
    }
}

/// A private pointer stored as a double: the even address shifted right by one.
pub fn PrivateValue(addr: u64) -> (r: JSVal)
    requires
        addr % 2 == 0,
    ensures
        r.data == addr / 2,
{
    assert((addr >> 1u64) == addr / 2) by (bit_vector);
    Union_jsval_layout { data: addr >> 1 }
}

impl Union_jsval_layout {
    pub fn is_undefined(&self) -> (r: bool)
        ensures
            r == layout_is_undefined(self.data),
    {
        self.data == JSVAL_SHIFTED_TAG_UNDEFINED
    }

    pub fn is_null(&self) -> (r: bool)
        ensures
            r == layout_is_null(self.data),
    {
        self.data == JSVAL_SHIFTED_TAG_NULL
    }

    pub fn is_null_or_undefined(&self) -> (r: bool)
        ensures
            r == (layout_is_null(self.data) || layout_is_undefined(self.data)),
    {
        self.is_null() || self.is_undefined()
    }

    pub fn is_double(&self) -> (r: bool)
        ensures
            r == layout_is_double(self.data),
    {
        self.data <= JSVAL_SHIFTED_TAG_MAX_DOUBLE
    }

    pub fn is_primitive(&self) -> (r: bool)
        ensures
            r == layout_is_primitive(self.data),
    {
        self.data < JSVAL_SHIFTED_TAG_OBJECT
    }

    pub fn is_string(&self) -> (r: bool)
        ensures
            r == layout_is_string(self.data),
    {
        proof {
            lemma_tag_payload(self.data);
        }
        (self.data >> JSVAL_TAG_SHIFT) == JSVAL_TAG_STRING as u64
    }

    pub fn is_object(&self) -> (r: bool)
        requires
            layout_tag_in_range(self.data),
        ensures
            r == layout_is_object(self.data),
    {
        self.data >= JSVAL_SHIFTED_TAG_OBJECT
    }

    /// The address of the object in an object value.
    pub fn to_object(&self) -> (r: u64)
        requires
            layout_tag_in_range(self.data),
            layout_is_object(self.data),
            payload_of(self.data) % 8 == 0,
        ensures
            r == payload_of(self.data),
    {
        self.to_object_or_null()
    }

    pub fn is_object_or_null(&self) -> (r: bool)
        requires
            layout_tag_in_range(self.data),
        ensures
            r == layout_is_object_or_null(self.data),
    {
        self.data >= JSVAL_SHIFTED_TAG_NULL
    }

    /// The address in an object or null value; `0` for `null`.
    pub fn to_object_or_null(&self) -> (r: u64)
        requires
            layout_tag_in_range(self.data),
            layout_is_object_or_null(self.data),
            payload_of(self.data) % 8 == 0,
        ensures
            r == payload_of(self.data),
    {
        proof {
            lemma_tag_payload(self.data);
        }
        self.data & JSVAL_PAYLOAD_MASK
    }

    /// The pointer stored by `PrivateValue`.
    pub fn to_private(&self) -> (r: u64)
        requires
            layout_is_double(self.data),
            self.data < 0x8000_0000_0000_0000u64,
        ensures
            r == self.data * 2,
    {
        let bits = self.data;
        assert(bits << 1u64 == bits * 2) by (bit_vector)
            requires bits < 0x8000_0000_0000_0000u64;
        bits << 1
    }

    pub fn is_gcthing(&self) -> (r: bool)
        ensures
            r == layout_is_gcthing(self.data),
    {
        self.data >= JSVAL_SHIFTED_TAG_STRING
    }

    /// The address of the engine thing in a GC thing value.
    pub fn to_gcthing(&self) -> (r: u64)
        requires
            layout_is_gcthing(self.data),
            payload_of(self.data) % 8 == 0,
        ensures
            r == payload_of(self.data),
    {
        proof {
            lemma_tag_payload(self.data);
        }
        self.data & JSVAL_PAYLOAD_MASK
    }

    pub fn is_markable(&self) -> (r: bool)
        ensures
            r == layout_is_markable(self.data),
    {
        self.is_gcthing() && !self.is_null()
    }

    /// The engine's trace kind of a markable value: 0 for objects, 1 otherwise.
    pub fn trace_kind(&self) -> (r: u32)
        requires
            layout_tag_in_range(self.data),
            layout_is_markable(self.data),
        ensures
            r == (if layout_is_object(self.data) { 0u32 } else { 1u32 }),
    {
        if self.is_object() {
            0
        } else {
            1
        }
    }
}

/// An object value of this layout is a markable object of trace kind 0, and
/// `to_object` gives back its address.
pub proof fn lemma_layout_object_value(addr: u64)
    requires
        addr < 0x8000_0000_0000,
    ensures
        layout_tag_in_range(layout_object_bits(addr)),
        layout_is_object(layout_object_bits(addr)),
        layout_is_object_or_null(layout_object_bits(addr)),
        layout_is_markable(layout_object_bits(addr)),
        !layout_is_primitive(layout_object_bits(addr)),
        payload_of(layout_object_bits(addr)) == addr,
{
}

/// A string value of this layout is a markable primitive of trace kind 1.
pub proof fn lemma_layout_string_value(addr: u64)
    requires
        addr < 0x8000_0000_0000,
    ensures
        layout_tag_in_range(layout_string_bits(addr)),
        layout_is_string(layout_string_bits(addr)),
        layout_is_markable(layout_string_bits(addr)),
        layout_is_primitive(layout_string_bits(addr)),
        !layout_is_object(layout_string_bits(addr)),
        !layout_is_object_or_null(layout_string_bits(addr)),
        payload_of(layout_string_bits(addr)) == addr,
{
}

/// `null` of this layout is an object-or-null that is not markable and whose
/// address is the null address.
pub proof fn lemma_layout_null_value()
    ensures
        layout_tag_in_range(JSVAL_SHIFTED_TAG_NULL),
        layout_is_null(JSVAL_SHIFTED_TAG_NULL),
        layout_is_object_or_null(JSVAL_SHIFTED_TAG_NULL),
        !layout_is_object(JSVAL_SHIFTED_TAG_NULL),
        !layout_is_markable(JSVAL_SHIFTED_TAG_NULL),
        payload_of(JSVAL_SHIFTED_TAG_NULL) == 0,
{
}

/// Numbers of this layout: int32 and boolean values are primitives that are
/// not doubles, and `UInt32Value` beyond the int32 range is the double `u`.
pub proof fn lemma_layout_numbers(i: i32, b: bool, u: u32)
    ensures
        layout_is_primitive(layout_int32_bits(i)),
        !layout_is_double(layout_int32_bits(i)),
        !layout_is_gcthing(layout_int32_bits(i)),
        layout_is_primitive(layout_boolean_bits(b)),
        !layout_is_double(layout_boolean_bits(b)),
        u > 0x7fff_ffff ==> layout_is_double(layout_uint32_bits(u)),
{
    if u > 0x7fff_ffff {
        lemma_double_bits_positive(u as nat);
    }
}

} // verus!
