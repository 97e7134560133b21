//! The boxed JavaScript value (`JSVal`) of 64-bit targets.
//!
//! A value is one 64-bit word. Doubles are stored as their own IEEE-754 bits;
//! every other kind puts a 17-bit tag in bits 47..63 and a 47-bit payload
//! below it. Pointers to engine things (strings, objects) are handed to this
//! module as their addresses.

use vstd::prelude::*;
use crate::number::{
    double_bits_of_int, double_integer_value, u32_to_double_bits, i32_to_double_bits,
    lemma_double_bits_positive, lemma_double_bits_of_int_value,
};

verus! {

/// Position of the tag in a boxed value.
pub const JSVAL_TAG_SHIFT: u64 = 47;

/// Largest tag whose values are doubles.
pub const JSVAL_TAG_MAX_DOUBLE: u32 = 0x1FFF0;

/// Mask of the payload bits below the tag.
pub const JSVAL_PAYLOAD_MASK: u64 = 0x00007FFFFFFFFFFF;

/// Type codes of the engine, in the order that the tag ranges below rely on.
pub const JSVAL_TYPE_DOUBLE: u32 = 0x00;
pub const JSVAL_TYPE_INT32: u32 = 0x01;
pub const JSVAL_TYPE_UNDEFINED: u32 = 0x02;
pub const JSVAL_TYPE_BOOLEAN: u32 = 0x03;
pub const JSVAL_TYPE_MAGIC: u32 = 0x04;
pub const JSVAL_TYPE_STRING: u32 = 0x05;
pub const JSVAL_TYPE_SYMBOL: u32 = 0x06;
pub const JSVAL_TYPE_NULL: u32 = 0x07;
pub const JSVAL_TYPE_OBJECT: u32 = 0x08;

/// Tags: `JSVAL_TAG_MAX_DOUBLE | type`.
pub const JSVAL_TAG_INT32: u32 = 0x1FFF1;
pub const JSVAL_TAG_UNDEFINED: u32 = 0x1FFF2;
pub const JSVAL_TAG_BOOLEAN: u32 = 0x1FFF3;
pub const JSVAL_TAG_MAGIC: u32 = 0x1FFF4;
pub const JSVAL_TAG_STRING: u32 = 0x1FFF5;
pub const JSVAL_TAG_SYMBOL: u32 = 0x1FFF6;
pub const JSVAL_TAG_NULL: u32 = 0x1FFF7;
pub const JSVAL_TAG_OBJECT: u32 = 0x1FFF8;

/// Shifted tags: `tag << JSVAL_TAG_SHIFT`; `MAX_DOUBLE` also has the low 32 bits set.
pub const JSVAL_SHIFTED_TAG_MAX_DOUBLE: u64 = 0xFFF80000FFFFFFFF;
pub const JSVAL_SHIFTED_TAG_INT32: u64 = 0xFFF8800000000000;
pub const JSVAL_SHIFTED_TAG_UNDEFINED: u64 = 0xFFF9000000000000;
pub const JSVAL_SHIFTED_TAG_BOOLEAN: u64 = 0xFFF9800000000000;
pub const JSVAL_SHIFTED_TAG_MAGIC: u64 = 0xFFFA000000000000;
pub const JSVAL_SHIFTED_TAG_STRING: u64 = 0xFFFA800000000000;
pub const JSVAL_SHIFTED_TAG_SYMBOL: u64 = 0xFFFB000000000000;
pub const JSVAL_SHIFTED_TAG_NULL: u64 = 0xFFFB800000000000;
pub const JSVAL_SHIFTED_TAG_OBJECT: u64 = 0xFFFC000000000000;

/// Weight of one tag step: `2^47`.
pub open spec fn tag_unit() -> int {
    0x8000_0000_0000
}

/// The tag of a boxed word: its bits 47..63.
pub open spec fn tag_of(bits: u64) -> int {
    bits as int / tag_unit()
}

/// The payload of a boxed word: its bits 0..46.
pub open spec fn payload_of(bits: u64) -> int {
    bits as int % tag_unit()
}

/// The word with the given tag and payload.
pub open spec fn boxed(tag: u32, payload: int) -> int {
    tag as int * tag_unit() + payload
}

/// The 32-bit two's complement pattern of `i`.
pub open spec fn u32_pattern(i: i32) -> int {
    if i >= 0 { i as int } else { i as int + 0x1_0000_0000 }
}

/// The signed 32-bit integer whose two's complement pattern is `p`.
pub open spec fn i32_of_pattern(p: int) -> int {
    if p < 0x8000_0000 { p } else { p - 0x1_0000_0000 }
}

// Classification of words, as the engine defines it on 64-bit targets.
pub open spec fn bits_is_undefined(bits: u64) -> bool { bits == JSVAL_SHIFTED_TAG_UNDEFINED }
pub open spec fn bits_is_null(bits: u64) -> bool { bits == JSVAL_SHIFTED_TAG_NULL }
pub open spec fn bits_is_boolean(bits: u64) -> bool { tag_of(bits) == JSVAL_TAG_BOOLEAN }
pub open spec fn bits_is_int32(bits: u64) -> bool { tag_of(bits) == JSVAL_TAG_INT32 }
pub open spec fn bits_is_double(bits: u64) -> bool { bits <= JSVAL_SHIFTED_TAG_MAX_DOUBLE }
pub open spec fn bits_is_number(bits: u64) -> bool { bits < JSVAL_SHIFTED_TAG_UNDEFINED }
pub open spec fn bits_is_primitive(bits: u64) -> bool { bits < JSVAL_SHIFTED_TAG_OBJECT }
pub open spec fn bits_is_string(bits: u64) -> bool { tag_of(bits) == JSVAL_TAG_STRING }
pub open spec fn bits_is_object(bits: u64) -> bool { bits >= JSVAL_SHIFTED_TAG_OBJECT }
pub open spec fn bits_is_symbol(bits: u64) -> bool { bits == JSVAL_SHIFTED_TAG_SYMBOL }
pub open spec fn bits_is_object_or_null(bits: u64) -> bool { bits >= JSVAL_SHIFTED_TAG_NULL }
pub open spec fn bits_is_gcthing(bits: u64) -> bool { bits >= JSVAL_SHIFTED_TAG_STRING }
pub open spec fn bits_is_null_or_undefined(bits: u64) -> bool {
    bits_is_null(bits) || bits_is_undefined(bits)
}
pub open spec fn bits_is_markable(bits: u64) -> bool {
    bits_is_gcthing(bits) && !bits_is_null(bits)
}

/// The trace kind of a markable word: an object, or else a string.
pub open spec fn trace_kind_of(bits: u64) -> JSGCTraceKind {
    if bits_is_object(bits) {
        JSGCTraceKind::JSTRACE_OBJECT
    } else {
        JSGCTraceKind::JSTRACE_STRING
    }
}

/// The integer of an int32 word.
pub open spec fn int32_of(bits: u64) -> int {
    i32_of_pattern(bits as int % 0x1_0000_0000)
}

/// A number word that is a double or an int32, as every number the
/// constructors build is.
pub open spec fn number_is_canonical(bits: u64) -> bool {
    bits_is_number(bits) ==> bits_is_double(bits) || bits_is_int32(bits)
}

/// The double bits of a number word.
pub open spec fn number_bits(bits: u64) -> u64 {
    if bits_is_double(bits) { bits } else { double_bits_of_int(int32_of(bits)) }
}

/// Words whose tag the engine knows: the object tag or a smaller one.
pub open spec fn tag_in_range(bits: u64) -> bool { tag_of(bits) <= JSVAL_TAG_OBJECT }

/// A word whose payload is an 8-byte aligned address, as engine things are.
pub open spec fn payload_aligned(bits: u64) -> bool { payload_of(bits) % 8 == 0 }

/// An address that fits the payload.
pub open spec fn fits_payload(addr: u64) -> bool { addr < 0x8000_0000_0000 }

/// The words that the constructors build.
pub open spec fn null_bits() -> u64 { JSVAL_SHIFTED_TAG_NULL }
pub open spec fn undefined_bits() -> u64 { JSVAL_SHIFTED_TAG_UNDEFINED }
pub open spec fn int32_bits(i: i32) -> u64 { boxed(JSVAL_TAG_INT32, u32_pattern(i)) as u64 }
pub open spec fn boolean_bits(b: bool) -> u64 {
    boxed(JSVAL_TAG_BOOLEAN, if b { 1 } else { 0 }) as u64
}
pub open spec fn string_bits(addr: u64) -> u64 { boxed(JSVAL_TAG_STRING, addr as int) as u64 }
pub open spec fn object_bits(addr: u64) -> u64 { boxed(JSVAL_TAG_OBJECT, addr as int) as u64 }
pub open spec fn object_or_null_bits(addr: u64) -> u64 {
    if addr == 0 { null_bits() } else { object_bits(addr) }
}
pub open spec fn private_bits(addr: u64) -> u64 { (addr / 2) as u64 }
pub open spec fn uint32_bits(u: u32) -> u64 {
    if u > 0x7fff_ffff { double_bits_of_int(u as int) } else { int32_bits(u as i32) }
}

/// The kinds of engine things a markable value points at.
#[derive(Clone, Copy, PartialEq, Eq, Structural, Debug)]
pub enum JSGCTraceKind {
    JSTRACE_OBJECT,
    JSTRACE_STRING,
}

/// A boxed JavaScript value.
#[derive(Clone, Copy, PartialEq, Eq, Structural, Debug)]
pub struct JSVal {
    pub data: u64,
}

/// The value whose word is `val`.
pub fn AsJSVal(val: u64) -> (r: JSVal)
    ensures
        r.data == val,
{
    JSVal { data: val }
}

pub(crate) proof fn lemma_box(tag: u32, payload: u64)
    requires
        tag <= 0x1FFFF,
        payload < 0x8000_0000_0000,
    ensures
        ((tag as u64) << 47u64) | payload == boxed(tag, payload as int),
        tag_of(boxed(tag, payload as int) as u64) == tag,
        payload_of(boxed(tag, payload as int) as u64) == payload,
{
    let t = tag as u64;
    assert(t << 47u64 == t * 0x8000_0000_0000) by (bit_vector)
        requires t <= 0x1FFFF;
    assert((t << 47u64) | payload == (t << 47u64) + payload) by (bit_vector)
        requires payload < 0x8000_0000_0000;
}

/// The value with tag `tag` and payload `payload`.
fn BuildJSVal(tag: u32, payload: u64) -> (r: JSVal)
    requires
        tag <= 0x1FFFF,
        payload < 0x8000_0000_0000,
    ensures
        r.data == boxed(tag, payload as int),
{
    proof {
        lemma_box(tag, payload);
    }
    AsJSVal(((tag as u64) << JSVAL_TAG_SHIFT) | payload)
}

/// The `null` value.
pub fn NullValue() -> (r: JSVal)
    ensures
        r.data == null_bits(),
{
    BuildJSVal(JSVAL_TAG_NULL, 0)
}

/// The `undefined` value.
pub fn UndefinedValue() -> (r: JSVal)
    ensures
        r.data == undefined_bits(),
{
    BuildJSVal(JSVAL_TAG_UNDEFINED, 0)
}

pub(crate) proof fn lemma_u32_pattern(i: i32)
    ensures
        (i as u32) as int == u32_pattern(i),
{
    assert(i >= 0 ==> (i as u32) as int == i as int) by (bit_vector);
    assert(i < 0 ==> (i as u32) as int == i as int + 0x1_0000_0000) by (bit_vector);
}

/// The int32 value `i`.
pub fn Int32Value(i: i32) -> (r: JSVal)
    ensures
        r.data == int32_bits(i),
{
    proof {
        lemma_u32_pattern(i);
    }
    BuildJSVal(JSVAL_TAG_INT32, i as u32 as u64)
}

/// The double whose IEEE-754 bits are `bits`; a NaN whose bits reach into
/// the tagged range is not a double value.
pub fn DoubleValue(bits: u64) -> (r: JSVal)
    requires
        bits <= JSVAL_SHIFTED_TAG_MAX_DOUBLE,
    ensures
        r.data == bits,
{
    AsJSVal(bits)
}

/// The number `ui`: an int32 value when it fits, else the double `ui`.
pub fn UInt32Value(ui: u32) -> (r: JSVal)
    ensures
        r.data == uint32_bits(ui),
{
    if ui > 0x7fffffff {
        let bits = u32_to_double_bits(ui);
        DoubleValue(bits)
    } else {
        Int32Value(ui as i32)
    }
}

/// The string value of the string at address `addr`.
pub fn StringValue(addr: u64) -> (r: JSVal)
    requires
        fits_payload(addr),
    ensures
        r.data == string_bits(addr),
{
    BuildJSVal(JSVAL_TAG_STRING, addr)
}

/// The boolean value `b`.
pub fn BooleanValue(b: bool) -> (r: JSVal)
    ensures
        r.data == boolean_bits(b),
{
    BuildJSVal(JSVAL_TAG_BOOLEAN, if b { 1 } else { 0 })
}

/// The object value of the object at address `addr`.
pub fn ObjectValue(addr: u64) -> (r: JSVal)
    requires
        fits_payload(addr),
    ensures
        r.data == object_bits(addr),
{
    BuildJSVal(JSVAL_TAG_OBJECT, addr)
}

/// `null` for the null address, else the object value of `addr`.
pub fn ObjectOrNullValue(addr: u64) -> (r: JSVal)
    requires
        fits_payload(addr),
    ensures
        r.data == object_or_null_bits(addr),
{
    if addr == 0 {
        NullValue()
    } else {
        ObjectValue(addr)
    }
}

/// A private pointer stored as a double: the even address shifted right by one.
pub fn PrivateValue(addr: u64) -> (r: JSVal)
    requires
        addr % 2 == 0,
    ensures
        r.data == private_bits(addr),
{
    assert((addr >> 1u64) == addr / 2) by (bit_vector);
    AsJSVal(addr >> 1)
}

pub(crate) proof fn lemma_tag_payload(bits: u64)
    ensures
        bits >> 47u64 == tag_of(bits),
        bits & 0x00007FFFFFFFFFFFu64 == payload_of(bits),
{
    assert(bits >> 47u64 == bits / 0x8000_0000_0000) by (bit_vector);
    assert(bits & 0x00007FFFFFFFFFFFu64 == bits % 0x8000_0000_0000) by (bit_vector);
}

impl JSVal {
    /// The word of this value.
    pub fn asBits(&self) -> (r: u64)
        ensures
            r == self.data,
    {
        self.data
    }

    pub fn is_undefined(&self) -> (r: bool)
        ensures
            r == bits_is_undefined(self.data),
    {
        self.asBits() == JSVAL_SHIFTED_TAG_UNDEFINED
    }

    pub fn is_null(&self) -> (r: bool)
        ensures
            r == bits_is_null(self.data),
    {
        self.asBits() == JSVAL_SHIFTED_TAG_NULL
    }

    pub fn is_null_or_undefined(&self) -> (r: bool)
        ensures
            r == bits_is_null_or_undefined(self.data),
    {
        self.is_null() || self.is_undefined()
    }

    pub fn is_boolean(&self) -> (r: bool)
        ensures
            r == bits_is_boolean(self.data),
    {
        proof {
            lemma_tag_payload(self.data);
        }
        (self.asBits() >> JSVAL_TAG_SHIFT) == JSVAL_TAG_BOOLEAN as u64
    }

    pub fn is_int32(&self) -> (r: bool)
        ensures
            r == bits_is_int32(self.data),
    {
        proof {
            lemma_tag_payload(self.data);
        }
        (self.asBits() >> JSVAL_TAG_SHIFT) == JSVAL_TAG_INT32 as u64
    }

    pub fn is_double(&self) -> (r: bool)
        ensures
            r == bits_is_double(self.data),
    {
        self.asBits() <= JSVAL_SHIFTED_TAG_MAX_DOUBLE
    }

    pub fn is_number(&self) -> (r: bool)
        ensures
            r == bits_is_number(self.data),
    {
        self.asBits() < JSVAL_SHIFTED_TAG_UNDEFINED
    }

    pub fn is_primitive(&self) -> (r: bool)
        ensures
            r == bits_is_primitive(self.data),
    {
        self.asBits() < JSVAL_SHIFTED_TAG_OBJECT
    }

    pub fn is_string(&self) -> (r: bool)
        ensures
            r == bits_is_string(self.data),
    {
        proof {
            lemma_tag_payload(self.data);
        }
        (self.asBits() >> JSVAL_TAG_SHIFT) == JSVAL_TAG_STRING as u64
    }

    pub fn is_object(&self) -> (r: bool)
        requires
            tag_in_range(self.data),
        ensures
            r == bits_is_object(self.data),
    {
        self.asBits() >= JSVAL_SHIFTED_TAG_OBJECT
    }

    pub fn is_symbol(&self) -> (r: bool)
        ensures
            r == bits_is_symbol(self.data),
    {
        self.asBits() == JSVAL_SHIFTED_TAG_SYMBOL
    }

    /// The boolean in a boolean value: whether its payload is nonzero.
    pub fn to_boolean(&self) -> (r: bool)
        requires
            bits_is_boolean(self.data),
        ensures
            r == (payload_of(self.data) != 0),
    {
        proof {
            lemma_tag_payload(self.data);
        }
        (self.asBits() & JSVAL_PAYLOAD_MASK) != 0
    }

    /// The integer in an int32 value: its low 32 bits, as two's complement.
    pub fn to_int32(&self) -> (r: i32)
        requires
            bits_is_int32(self.data),
        ensures
            r as int == i32_of_pattern(self.data as int % 0x1_0000_0000),
    {
        let bits = self.asBits();
        let low: u64 = bits & 0x00000000FFFFFFFF;
        let low32: u32 = low as u32;
        assert(low == bits % 0x1_0000_0000) by (bit_vector)
            requires low == bits & 0x00000000FFFFFFFFu64;
        assert(low32 == low) by (bit_vector)
            requires low32 == low as u32, low < 0x1_0000_0000;
        assert(low32 < 0x8000_0000 ==> (low32 as i32) as int == low32 as int) by (bit_vector);
        assert(low32 >= 0x8000_0000 ==> (low32 as i32) as int == low32 as int - 0x1_0000_0000)
            by (bit_vector);
        low32 as i32
    }

    /// The IEEE-754 bits of the double in a double value.
    pub fn to_double(&self) -> (r: u64)
        requires
            bits_is_double(self.data),
        ensures
            r == self.data,
    {
        self.asBits()
    }

    /// The number in a number value, as the bits of the double it equals.
    pub fn to_number(&self) -> (r: u64)
        requires
            bits_is_number(self.data),
            number_is_canonical(self.data),
        ensures
            r == number_bits(self.data),
    {
        if self.is_double() {
            self.to_double()
        } else {
            i32_to_double_bits(self.to_int32())
        }
    }

    /// The address of the object in an object value.
    pub fn to_object(&self) -> (r: u64)
        requires
            tag_in_range(self.data),
            bits_is_object(self.data),
            payload_aligned(self.data),
        ensures
            r == payload_of(self.data),
    {
        self.to_object_or_null()
    }

    /// The address of the string in a string value.
    pub fn to_string(&self) -> (r: u64)
        requires
            bits_is_string(self.data),
        ensures
            r == payload_of(self.data),
    {
        proof {
            lemma_tag_payload(self.data);
        }
        self.asBits() & JSVAL_PAYLOAD_MASK
    }

    pub fn is_object_or_null(&self) -> (r: bool)
        requires
            tag_in_range(self.data),
        ensures
            r == bits_is_object_or_null(self.data),
    {
        self.asBits() >= JSVAL_SHIFTED_TAG_NULL
    }

    /// The address in an object or null value; `0` for `null`.
    pub fn to_object_or_null(&self) -> (r: u64)
        requires
            tag_in_range(self.data),
            bits_is_object_or_null(self.data),
            payload_aligned(self.data),
        ensures
            r == payload_of(self.data),
    {
        proof {
            lemma_tag_payload(self.data);
        }
        self.asBits() & JSVAL_PAYLOAD_MASK
    }

    /// The pointer stored by `PrivateValue`: the word shifted left by one.
    pub fn to_private(&self) -> (r: u64)
        requires
            bits_is_double(self.data),
            self.data < 0x8000_0000_0000_0000u64,
        ensures
            r == self.data * 2,
    {
        let bits = self.asBits();
        assert(bits << 1u64 == bits * 2) by (bit_vector)
            requires bits < 0x8000_0000_0000_0000u64;
        bits << 1
    }

    pub fn is_gcthing(&self) -> (r: bool)
        ensures
            r == bits_is_gcthing(self.data),
    {
        self.asBits() >= JSVAL_SHIFTED_TAG_STRING
    }

    /// The address of the engine thing in a GC thing value.
    pub fn to_gcthing(&self) -> (r: u64)
        requires
            bits_is_gcthing(self.data),
            payload_aligned(self.data),
        ensures
            r == payload_of(self.data),
    {
        proof {
            lemma_tag_payload(self.data);
        }
        self.asBits() & JSVAL_PAYLOAD_MASK
    }

    pub fn is_markable(&self) -> (r: bool)
        ensures
            r == bits_is_markable(self.data),
    {
        self.is_gcthing() && !self.is_null()
    }

    /// What the GC traces through a markable value: an object, or else a string.
    pub fn trace_kind(&self) -> (r: JSGCTraceKind)
        requires
            tag_in_range(self.data),
            bits_is_markable(self.data),
        ensures
            r == trace_kind_of(self.data),
    {
        if self.is_object() {
            JSGCTraceKind::JSTRACE_OBJECT
        } else {
            JSGCTraceKind::JSTRACE_STRING
        }
    }
}

/// A value built with a tag and a payload that fits reads back both.
proof fn lemma_boxed_parts(tag: u32, payload: int)
    requires
        JSVAL_TAG_INT32 <= tag <= JSVAL_TAG_OBJECT,
        0 <= payload < tag_unit(),
    ensures
        boxed(tag, payload) < 0x1_0000_0000_0000_0000,
        tag_of(boxed(tag, payload) as u64) == tag,
        payload_of(boxed(tag, payload) as u64) == payload,
        boxed(tag, payload) as u64 as int == boxed(tag, payload),
{
}

/// An int32 value is an int32, a number and a primitive, of no other kind,
/// and `to_int32` gives back the integer it was built from.
pub proof fn lemma_int32_value(i: i32)
    ensures
        tag_in_range(int32_bits(i)),
        bits_is_int32(int32_bits(i)),
        bits_is_number(int32_bits(i)),
        bits_is_primitive(int32_bits(i)),
        !bits_is_double(int32_bits(i)),
        !bits_is_boolean(int32_bits(i)),
        !bits_is_string(int32_bits(i)),
        !bits_is_null(int32_bits(i)),
        !bits_is_undefined(int32_bits(i)),
        !bits_is_gcthing(int32_bits(i)),
        i32_of_pattern(int32_bits(i) as int % 0x1_0000_0000) == i,
{
    lemma_boxed_parts(JSVAL_TAG_INT32, u32_pattern(i));
}

/// A boolean value is a boolean primitive of no other kind, and `to_boolean`
/// gives back the boolean it was built from.
pub proof fn lemma_boolean_value(b: bool)
    ensures
        tag_in_range(boolean_bits(b)),
        bits_is_boolean(boolean_bits(b)),
        bits_is_primitive(boolean_bits(b)),
        !bits_is_number(boolean_bits(b)),
        !bits_is_int32(boolean_bits(b)),
        !bits_is_null_or_undefined(boolean_bits(b)),
        !bits_is_gcthing(boolean_bits(b)),
        (payload_of(boolean_bits(b)) != 0) == b,
{
    lemma_boxed_parts(JSVAL_TAG_BOOLEAN, if b { 1 } else { 0 });
}

/// `null` is null, an object-or-null and a primitive; it is a GC thing that is
/// not markable, and its address is the null address.
pub proof fn lemma_null_value()
    ensures
        tag_in_range(null_bits()),
        bits_is_null(null_bits()),
        bits_is_null_or_undefined(null_bits()),
        bits_is_object_or_null(null_bits()),
        bits_is_primitive(null_bits()),
        !bits_is_object(null_bits()),
        !bits_is_number(null_bits()),
        bits_is_gcthing(null_bits()),
        !bits_is_markable(null_bits()),
        payload_of(null_bits()) == 0,
{
}

/// `undefined` is undefined and a primitive of no other kind.
pub proof fn lemma_undefined_value()
    ensures
        tag_in_range(undefined_bits()),
        bits_is_undefined(undefined_bits()),
        bits_is_null_or_undefined(undefined_bits()),
        bits_is_primitive(undefined_bits()),
        !bits_is_null(undefined_bits()),
        !bits_is_number(undefined_bits()),
        !bits_is_gcthing(undefined_bits()),
{
}

/// A string value is a markable primitive traced as a string, and
/// `to_string` gives back the address it was built from.
pub proof fn lemma_string_value(addr: u64)
    requires
        fits_payload(addr),
    ensures
        tag_in_range(string_bits(addr)),
        bits_is_string(string_bits(addr)),
        bits_is_primitive(string_bits(addr)),
        bits_is_gcthing(string_bits(addr)),
        bits_is_markable(string_bits(addr)),
        !bits_is_object(string_bits(addr)),
        !bits_is_object_or_null(string_bits(addr)),
        !bits_is_number(string_bits(addr)),
        payload_of(string_bits(addr)) == addr,
{
    lemma_boxed_parts(JSVAL_TAG_STRING, addr as int);
}

/// An object value is a markable object, not a primitive, and `to_object`
/// gives back the address it was built from.
pub proof fn lemma_object_value(addr: u64)
    requires
        fits_payload(addr),
    ensures
        tag_in_range(object_bits(addr)),
        bits_is_object(object_bits(addr)),
        bits_is_object_or_null(object_bits(addr)),
        bits_is_gcthing(object_bits(addr)),
        bits_is_markable(object_bits(addr)),
        !bits_is_primitive(object_bits(addr)),
        !bits_is_null(object_bits(addr)),
        !bits_is_string(object_bits(addr)),
        payload_of(object_bits(addr)) == addr,
        addr % 8 == 0 ==> payload_aligned(object_bits(addr)),
{
    lemma_boxed_parts(JSVAL_TAG_OBJECT, addr as int);
}

/// `to_object_or_null` reads `null` as the null address and an object value
/// at an aligned address as that address; `ObjectOrNullValue` of what it
/// reads rebuilds the value. (An object value at the null address reads as
/// the null address, which rebuilds as `null`, so the rebuilding is stated
/// for nonzero addresses.)
pub proof fn lemma_object_or_null_roundtrip(addr: u64)
    requires
        fits_payload(addr),
        addr % 8 == 0,
    ensures
        tag_in_range(null_bits()),
        payload_aligned(null_bits()),
        payload_of(null_bits()) == 0,
        object_or_null_bits(payload_of(null_bits()) as u64) == null_bits(),
        tag_in_range(object_bits(addr)),
        bits_is_object_or_null(object_bits(addr)),
        payload_aligned(object_bits(addr)),
        payload_of(object_bits(addr)) == addr,
        addr != 0 ==> object_or_null_bits(payload_of(object_bits(addr)) as u64) == object_bits(
            addr,
        ),
{
    lemma_object_value(addr);
}

/// Object values are traced as objects and string values as strings; every
/// markable value is traced as an object exactly when it is one.
pub proof fn lemma_trace_kinds(addr: u64, bits: u64)
    requires
        fits_payload(addr),
    ensures
        bits_is_markable(object_bits(addr)) && trace_kind_of(object_bits(addr))
            == JSGCTraceKind::JSTRACE_OBJECT,
        bits_is_markable(string_bits(addr)) && trace_kind_of(string_bits(addr))
            == JSGCTraceKind::JSTRACE_STRING,
        bits_is_markable(bits) && bits_is_string(bits) ==> trace_kind_of(bits)
            == JSGCTraceKind::JSTRACE_STRING,
        bits_is_markable(bits) ==> (trace_kind_of(bits) == JSGCTraceKind::JSTRACE_OBJECT
            <==> bits_is_object(bits)),
{
    lemma_object_value(addr);
    lemma_string_value(addr);
    lemma_tag_payload(bits);
}

/// `ObjectOrNullValue` gives back its address through `to_object_or_null`,
/// and is `null` exactly for the null address.
pub proof fn lemma_object_or_null_value(addr: u64)
    requires
        fits_payload(addr),
    ensures
        tag_in_range(object_or_null_bits(addr)),
        bits_is_object_or_null(object_or_null_bits(addr)),
        bits_is_null(object_or_null_bits(addr)) == (addr == 0),
        payload_of(object_or_null_bits(addr)) == addr,
{
    if addr != 0 {
        lemma_object_value(addr);
    }
}

/// A double value is a number and a primitive, and `to_double` gives back its bits.
pub proof fn lemma_double_value(bits: u64)
    requires
        bits <= JSVAL_SHIFTED_TAG_MAX_DOUBLE,
    ensures
        tag_in_range(bits),
        bits_is_double(bits),
        bits_is_number(bits),
        bits_is_primitive(bits),
        !bits_is_int32(bits),
        !bits_is_gcthing(bits),
{
}

/// `UInt32Value` is the int32 `u` when `u` fits an int32, and otherwise the
/// double whose value is `u`.
pub proof fn lemma_uint32_value(u: u32)
    ensures
        bits_is_number(uint32_bits(u)),
        u <= 0x7fff_ffff ==> bits_is_int32(uint32_bits(u)) && i32_of_pattern(
            uint32_bits(u) as int % 0x1_0000_0000,
        ) == u,
        u > 0x7fff_ffff ==> bits_is_double(uint32_bits(u)) && uint32_bits(u)
            == double_bits_of_int(u as int) && double_integer_value(uint32_bits(u)) == u,
{
    if u > 0x7fff_ffff {
        lemma_double_bits_positive(u as nat);
        lemma_double_bits_of_int_value(u as int);
    } else {
        lemma_int32_value(u as i32);
    }
}

/// A private value is a double, and `to_private` gives back its even address.
pub proof fn lemma_private_value(addr: u64)
    requires
        addr % 2 == 0,
    ensures
        bits_is_double(private_bits(addr)),
        private_bits(addr) < 0x8000_0000_0000_0000u64,
        private_bits(addr) * 2 == addr,
{
}

/// A value of a known tag is of at most one of the kinds double, int32,
/// boolean, string, symbol, null, undefined and object.
pub proof fn lemma_kinds_exclusive(bits: u64)
    requires
        tag_in_range(bits),
    ensures
        bits_is_double(bits) ==> !bits_is_int32(bits) && !bits_is_boolean(bits) && !bits_is_string(
            bits,
        ) && !bits_is_symbol(bits) && !bits_is_null(bits) && !bits_is_undefined(bits)
            && !bits_is_object(bits),
        bits_is_int32(bits) ==> !bits_is_boolean(bits) && !bits_is_string(bits) && !bits_is_symbol(
            bits,
        ) && !bits_is_null(bits) && !bits_is_undefined(bits) && !bits_is_object(bits),
        bits_is_boolean(bits) ==> !bits_is_string(bits) && !bits_is_symbol(bits) && !bits_is_null(
            bits,
        ) && !bits_is_undefined(bits) && !bits_is_object(bits),
        bits_is_string(bits) ==> !bits_is_symbol(bits) && !bits_is_null(bits) && !bits_is_undefined(
            bits,
        ) && !bits_is_object(bits),
        bits_is_symbol(bits) ==> !bits_is_null(bits) && !bits_is_undefined(bits) && !bits_is_object(
            bits,
        ),
        bits_is_null(bits) ==> !bits_is_undefined(bits) && !bits_is_object(bits),
        bits_is_undefined(bits) ==> !bits_is_object(bits),
        bits_is_object(bits) <==> !bits_is_primitive(bits),
        bits_is_markable(bits) && !bits_is_object(bits) ==> bits_is_primitive(bits),
{
}

} // verus!
