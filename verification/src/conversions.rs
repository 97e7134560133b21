//! Conversions of Rust values to and from `JSVal`.
//!
//! | IDL type                | Type                             |
//! |-------------------------|----------------------------------|
//! | any                     | `JSVal`                          |
//! | boolean                 | `bool`                           |
//! | byte                    | `i8`                             |
//! | octet                   | `u8`                             |
//! | short                   | `i16`                            |
//! | unsigned short          | `u16`                            |
//! | long                    | `i32`                            |
//! | unsigned long           | `u32`                            |
//! | long long               | `i64`                            |
//! | unsigned long long      | `u64`                            |
//! | nullable types          | `Option<T>`                      |
//!
//! Converting from a value decides here whatever the value's word decides:
//! booleans, int32 values under every `ConversionBehavior`, `null` and
//! `undefined` for nullable types. Doubles, strings and objects need the
//! engine; their conversions answer `NeedsEngine`.

use vstd::prelude::*;
use std::rc::Rc;
use crate::jsval::{
    JSVal, BooleanValue, Int32Value, NullValue, UInt32Value, UndefinedValue, bits_is_int32,
    bits_is_null_or_undefined, int32_of, boolean_bits, int32_bits, null_bits, undefined_bits,
    uint32_bits, tag_in_range, bits_is_object, payload_aligned, payload_of, lemma_boolean_value, lemma_int32_value, lemma_uint32_value, lemma_null_value,
    bits_is_boolean, bits_is_number, bits_is_null, bits_is_undefined, bits_is_double,
    lemma_undefined_value,
};
use crate::number::double_integer_value;
use vstd::arithmetic::div_mod::{lemma_fundamental_div_mod, lemma_mod_multiples_basic};
use crate::rust::{ToBoolean, to_boolean_fast, MutableHandle};
use crate::text::push_char;

verus! {

/// Behavior for converting out-of-range integers.
#[derive(PartialEq, Eq, Clone, Copy, Structural, Debug)]
pub enum ConversionBehavior {
    /// Wrap into the integer's range.
    Default,
    /// Throw an exception.
    EnforceRange,
    /// Clamp into the integer's range.
    Clamp,
}

/// The outcome of converting a value without the engine.
#[derive(PartialEq, Eq, Clone, Copy, Structural, Debug)]
pub enum Conversion<T> {
    /// The value converts to this.
    Converted(T),
    /// The conversion fails with a TypeError (for an integer, "value out of
    /// range in an EnforceRange argument").
    TypeError,
    /// Only the engine can convert this value.
    NeedsEngine,
}

/// A trait to convert Rust types to `JSVal`s.
pub trait ToJSValConvertible {
    /// The value that `self` converts to.
    spec fn js_value(&self) -> JSVal;

    /// Convert `self` to a `JSVal`, stored through the handle `rval`.
    fn to_jsval(&self, rval: MutableHandle<'_, JSVal>)
        ensures
            *final(rval.ptr) == self.js_value(),
    ;
}

/// A trait to convert `JSVal`s to Rust types.
pub trait FromJSValConvertible: Sized {
    /// Optional configurable behaviour switch; use () for no configuration.
    type Config;

    /// What converting `val` with `option` decides without the engine.
    spec fn decided(val: JSVal, option: Self::Config) -> Conversion<Self>;

    /// Convert `val` to type `Self`, as far as its word decides it.
    fn from_jsval(val: &JSVal, option: Self::Config) -> (r: Conversion<Self>)
        ensures
            r == Self::decided(*val, option),
    ;
}

/// Converting the integer `i` of an int32 value to an integer type with range
/// `min..=max`, where `wrapped` is `i` wrapped into that range.
pub open spec fn convert_int32(
    i: int,
    option: ConversionBehavior,
    min: int,
    max: int,
    wrapped: int,
) -> Conversion<int> {
    match option {
        ConversionBehavior::Default => Conversion::Converted(wrapped),
        ConversionBehavior::EnforceRange => if min <= i && i <= max {
            Conversion::Converted(i)
        } else {
            Conversion::TypeError
        },
        ConversionBehavior::Clamp => Conversion::Converted(
            if i > max {
                max
            } else if i < min {
                min
            } else {
                i
            },
        ),
    }
}

/// `i` wrapped into the signed integers of `2^k` values.
pub open spec fn wrap_signed(i: int, modulus: int) -> int {
    let r = i % modulus;
    if r >= modulus / 2 { r - modulus } else { r }
}

/// The integer conversion of a word: decided for int32 values, else left to
/// the engine.
pub open spec fn decide_int(
    bits: u64,
    option: ConversionBehavior,
    min: int,
    max: int,
    wrapped: int,
) -> Conversion<int> {
    if bits_is_int32(bits) {
        convert_int32(int32_of(bits), option, min, max, wrapped)
    } else {
        Conversion::NeedsEngine
    }
}

/// A conversion to `int` read as a conversion to `i128`.
pub open spec fn as_int_conversion(c: Conversion<i128>) -> Conversion<int> {
    match c {
        Conversion::Converted(x) => Conversion::Converted(x as int),
        Conversion::TypeError => Conversion::TypeError,
        Conversion::NeedsEngine => Conversion::NeedsEngine,
    }
}

/// The converted integer lies in `lo..=hi`.
pub open spec fn conversion_within(c: Conversion<int>, lo: int, hi: int) -> bool {
    c matches Conversion::Converted(x) ==> lo <= x <= hi
}

/// Decides the conversion of `val` to an integer type with range `min..=max`,
/// where `wrapped` is what the `Default` behavior gives for an int32 value.
fn int_from_jsval(val: &JSVal, option: ConversionBehavior, min: i128, max: i128, wrapped: i128) -> (r:
    Conversion<i128>)
    requires
        min <= max,
        min <= wrapped <= max,
    ensures
        as_int_conversion(r) == decide_int(val.data, option, min as int, max as int, wrapped as int),
        conversion_within(as_int_conversion(r), min as int, max as int),
{
    if !val.is_int32() {
        return Conversion::NeedsEngine;
    }
    let i = val.to_int32() as i128;
    match option {
        ConversionBehavior::Default => Conversion::Converted(wrapped),
        ConversionBehavior::EnforceRange => {
            if min <= i && i <= max {
                Conversion::Converted(i)
            } else {
                Conversion::TypeError
            }
        },
        ConversionBehavior::Clamp => {
            if i > max {
                Conversion::Converted(max)
            } else if i < min {
                Conversion::Converted(min)
            } else {
                Conversion::Converted(i)
            }
        },
    }
}

/// The integer that the `Default` behavior gives for the int32 of `val`;
/// zero for other values, where it is not used.
fn int32_or_zero(val: &JSVal) -> (r: i32)
    ensures
        bits_is_int32(val.data) ==> r == int32_of(val.data),
{
    if val.is_int32() {
        val.to_int32()
    } else {
        0
    }
}

// https://heycam.github.io/webidl/#es-void
impl ToJSValConvertible for () {
    open spec fn js_value(&self) -> JSVal {
        JSVal { data: undefined_bits() }
    }

    fn to_jsval(&self, mut rval: MutableHandle<'_, JSVal>) {
        rval.set(UndefinedValue());
    }
}

// https://heycam.github.io/webidl/#es-boolean
impl ToJSValConvertible for bool {
    open spec fn js_value(&self) -> JSVal {
        JSVal { data: boolean_bits(*self) }
    }

    fn to_jsval(&self, mut rval: MutableHandle<'_, JSVal>) {
        rval.set(BooleanValue(*self));
    }
}

// https://heycam.github.io/webidl/#es-boolean
impl FromJSValConvertible for bool {
    type Config = ();

    open spec fn decided(val: JSVal, option: ()) -> Conversion<bool> {
        match to_boolean_fast(val.data) {
            Some(b) => Conversion::Converted(b),
            None => Conversion::NeedsEngine,
        }
    }

    fn from_jsval(val: &JSVal, option: ()) -> (r: Conversion<bool>) {
        match ToBoolean(val) {
            Some(b) => Conversion::Converted(b),
            None => Conversion::NeedsEngine,
        }
    }
}

// https://heycam.github.io/webidl/#es-byte
impl ToJSValConvertible for i8 {
    open spec fn js_value(&self) -> JSVal {
        JSVal { data: int32_bits(*self as i32) }
    }

    fn to_jsval(&self, mut rval: MutableHandle<'_, JSVal>) {
        rval.set(Int32Value(*self as i32));
    }
}

// https://heycam.github.io/webidl/#es-byte
impl FromJSValConvertible for i8 {
    type Config = ConversionBehavior;

    open spec fn decided(val: JSVal, option: ConversionBehavior) -> Conversion<i8> {
        narrow_i8(decide_int(val.data, option, -0x80, 0x7f, wrap_signed(int32_of(val.data), 0x100)))
    }

    fn from_jsval(val: &JSVal, option: ConversionBehavior) -> (r: Conversion<i8>) {
        let i = int32_or_zero(val);
        assert((i as i8) as int == wrap_signed(i as int, 0x100)) by (bit_vector);
        let c = int_from_jsval(val, option, -0x80, 0x7f, (i as i8) as i128);
        match c {
            Conversion::Converted(x) => Conversion::Converted(x as i8),
            Conversion::TypeError => Conversion::TypeError,
            Conversion::NeedsEngine => Conversion::NeedsEngine,
        }
    }
}

// https://heycam.github.io/webidl/#es-octet
impl ToJSValConvertible for u8 {
    open spec fn js_value(&self) -> JSVal {
        JSVal { data: int32_bits(*self as i32) }
    }

    fn to_jsval(&self, mut rval: MutableHandle<'_, JSVal>) {
        rval.set(Int32Value(*self as i32));
    }
}

// https://heycam.github.io/webidl/#es-octet
impl FromJSValConvertible for u8 {
    type Config = ConversionBehavior;

    open spec fn decided(val: JSVal, option: ConversionBehavior) -> Conversion<u8> {
        narrow_u8(decide_int(val.data, option, 0, 0xff, int32_of(val.data) % 0x100))
    }

    fn from_jsval(val: &JSVal, option: ConversionBehavior) -> (r: Conversion<u8>) {
        let i = int32_or_zero(val);
        assert((i as u8) as int == (i as int) % 0x100) by (bit_vector);
        let c = int_from_jsval(val, option, 0, 0xff, (i as u8) as i128);
        match c {
            Conversion::Converted(x) => Conversion::Converted(x as u8),
            Conversion::TypeError => Conversion::TypeError,
            Conversion::NeedsEngine => Conversion::NeedsEngine,
        }
    }
}

// https://heycam.github.io/webidl/#es-short
impl ToJSValConvertible for i16 {
    open spec fn js_value(&self) -> JSVal {
        JSVal { data: int32_bits(*self as i32) }
    }

    fn to_jsval(&self, mut rval: MutableHandle<'_, JSVal>) {
        rval.set(Int32Value(*self as i32));
    }
}

// https://heycam.github.io/webidl/#es-short
impl FromJSValConvertible for i16 {
    type Config = ConversionBehavior;

    open spec fn decided(val: JSVal, option: ConversionBehavior) -> Conversion<i16> {
        narrow_i16(
            decide_int(val.data, option, -0x8000, 0x7fff, wrap_signed(int32_of(val.data), 0x1_0000)),
        )
    }

    fn from_jsval(val: &JSVal, option: ConversionBehavior) -> (r: Conversion<i16>) {
        let i = int32_or_zero(val);
        assert((i as i16) as int == wrap_signed(i as int, 0x1_0000)) by (bit_vector);
        let c = int_from_jsval(val, option, -0x8000, 0x7fff, (i as i16) as i128);
        match c {
            Conversion::Converted(x) => Conversion::Converted(x as i16),
            Conversion::TypeError => Conversion::TypeError,
            Conversion::NeedsEngine => Conversion::NeedsEngine,
        }
    }
}

// https://heycam.github.io/webidl/#es-unsigned-short
impl ToJSValConvertible for u16 {
    open spec fn js_value(&self) -> JSVal {
        JSVal { data: int32_bits(*self as i32) }
    }

    fn to_jsval(&self, mut rval: MutableHandle<'_, JSVal>) {
        rval.set(Int32Value(*self as i32));
    }
}

// https://heycam.github.io/webidl/#es-unsigned-short
impl FromJSValConvertible for u16 {
    type Config = ConversionBehavior;

    open spec fn decided(val: JSVal, option: ConversionBehavior) -> Conversion<u16> {
        narrow_u16(decide_int(val.data, option, 0, 0xffff, int32_of(val.data) % 0x1_0000))
    }

    fn from_jsval(val: &JSVal, option: ConversionBehavior) -> (r: Conversion<u16>) {
        let i = int32_or_zero(val);
        assert((i as u16) as int == (i as int) % 0x1_0000) by (bit_vector);
        let c = int_from_jsval(val, option, 0, 0xffff, (i as u16) as i128);
        match c {
            Conversion::Converted(x) => Conversion::Converted(x as u16),
            Conversion::TypeError => Conversion::TypeError,
            Conversion::NeedsEngine => Conversion::NeedsEngine,
        }
    }
}

// https://heycam.github.io/webidl/#es-long
impl ToJSValConvertible for i32 {
    open spec fn js_value(&self) -> JSVal {
        JSVal { data: int32_bits(*self) }
    }

    fn to_jsval(&self, mut rval: MutableHandle<'_, JSVal>) {
        rval.set(Int32Value(*self));
    }
}

// https://heycam.github.io/webidl/#es-long
impl FromJSValConvertible for i32 {
    type Config = ConversionBehavior;

    open spec fn decided(val: JSVal, option: ConversionBehavior) -> Conversion<i32> {
        narrow_i32(decide_int(val.data, option, -0x8000_0000, 0x7fff_ffff, int32_of(val.data)))
    }

    fn from_jsval(val: &JSVal, option: ConversionBehavior) -> (r: Conversion<i32>) {
        let i = int32_or_zero(val);
        let c = int_from_jsval(val, option, -0x8000_0000, 0x7fff_ffff, i as i128);
        match c {
            Conversion::Converted(x) => Conversion::Converted(x as i32),
            Conversion::TypeError => Conversion::TypeError,
            Conversion::NeedsEngine => Conversion::NeedsEngine,
        }
    }
}

// https://heycam.github.io/webidl/#es-unsigned-long
impl ToJSValConvertible for u32 {
    open spec fn js_value(&self) -> JSVal {
        JSVal { data: uint32_bits(*self) }
    }

    fn to_jsval(&self, mut rval: MutableHandle<'_, JSVal>) {
        rval.set(UInt32Value(*self));
    }
}

// https://heycam.github.io/webidl/#es-unsigned-long
impl FromJSValConvertible for u32 {
    type Config = ConversionBehavior;

    open spec fn decided(val: JSVal, option: ConversionBehavior) -> Conversion<u32> {
        narrow_u32(
            decide_int(val.data, option, 0, 0xffff_ffff, int32_of(val.data) % 0x1_0000_0000),
        )
    }

    fn from_jsval(val: &JSVal, option: ConversionBehavior) -> (r: Conversion<u32>) {
        let i = int32_or_zero(val);
        assert((i as u32) as int == (i as int) % 0x1_0000_0000) by (bit_vector);
        let c = int_from_jsval(val, option, 0, 0xffff_ffff, (i as u32) as i128);
        match c {
            Conversion::Converted(x) => Conversion::Converted(x as u32),
            Conversion::TypeError => Conversion::TypeError,
            Conversion::NeedsEngine => Conversion::NeedsEngine,
        }
    }
}

// https://heycam.github.io/webidl/#es-long-long
impl FromJSValConvertible for i64 {
    type Config = ConversionBehavior;

    open spec fn decided(val: JSVal, option: ConversionBehavior) -> Conversion<i64> {
        narrow_i64(
            decide_int(
                val.data,
                option,
                -0x8000_0000_0000_0000,
                0x7fff_ffff_ffff_ffff,
                int32_of(val.data),
            ),
        )
    }

    fn from_jsval(val: &JSVal, option: ConversionBehavior) -> (r: Conversion<i64>) {
        let i = int32_or_zero(val);
        let c = int_from_jsval(
            val,
            option,
            -0x8000_0000_0000_0000,
            0x7fff_ffff_ffff_ffff,
            i as i128,
        );
        match c {
            Conversion::Converted(x) => Conversion::Converted(x as i64),
            Conversion::TypeError => Conversion::TypeError,
            Conversion::NeedsEngine => Conversion::NeedsEngine,
        }
    }
}

// https://heycam.github.io/webidl/#es-unsigned-long-long
impl FromJSValConvertible for u64 {
    type Config = ConversionBehavior;

    open spec fn decided(val: JSVal, option: ConversionBehavior) -> Conversion<u64> {
        narrow_u64(
            decide_int(
                val.data,
                option,
                0,
                0xffff_ffff_ffff_ffff,
                int32_of(val.data) % 0x1_0000_0000_0000_0000,
            ),
        )
    }

    fn from_jsval(val: &JSVal, option: ConversionBehavior) -> (r: Conversion<u64>) {
        let i = int32_or_zero(val);
        let wide: i64 = i as i64;
        assert((wide as u64) as int == (wide as int) % 0x1_0000_0000_0000_0000) by (bit_vector);
        let c = int_from_jsval(val, option, 0, 0xffff_ffff_ffff_ffff, (wide as u64) as i128);
        match c {
            Conversion::Converted(x) => Conversion::Converted(x as u64),
            Conversion::TypeError => Conversion::TypeError,
            Conversion::NeedsEngine => Conversion::NeedsEngine,
        }
    }
}

impl<T: ToJSValConvertible> ToJSValConvertible for Option<T> {
    open spec fn js_value(&self) -> JSVal {
        match self {
            Some(value) => value.js_value(),
            None => JSVal { data: null_bits() },
        }
    }

    fn to_jsval(&self, rval: MutableHandle<'_, JSVal>) {
        match self {
            Some(value) => value.to_jsval(rval),
            None => {
                let mut rval = rval;
                rval.set(NullValue());
            },
        }
    }
}

impl<T: ToJSValConvertible> ToJSValConvertible for Rc<T> {
    open spec fn js_value(&self) -> JSVal {
        (**self).js_value()
    }

    fn to_jsval(&self, rval: MutableHandle<'_, JSVal>) {
        (**self).to_jsval(rval)
    }
}

impl<T: FromJSValConvertible> FromJSValConvertible for Option<T> {
    type Config = T::Config;

    open spec fn decided(val: JSVal, option: T::Config) -> Conversion<Option<T>> {
        if bits_is_null_or_undefined(val.data) {
            Conversion::Converted(None)
        } else {
            match T::decided(val, option) {
                Conversion::Converted(x) => Conversion::Converted(Some(x)),
                Conversion::TypeError => Conversion::TypeError,
                Conversion::NeedsEngine => Conversion::NeedsEngine,
            }
        }
    }

    fn from_jsval(val: &JSVal, option: T::Config) -> (r: Conversion<Option<T>>) {
        if val.is_null_or_undefined() {
            Conversion::Converted(None)
        } else {
            match T::from_jsval(val, option) {
                Conversion::Converted(x) => Conversion::Converted(Some(x)),
                Conversion::TypeError => Conversion::TypeError,
                Conversion::NeedsEngine => Conversion::NeedsEngine,
            }
        }
    }
}

pub open spec fn narrow_i8(c: Conversion<int>) -> Conversion<i8> {
    match c {
        Conversion::Converted(x) => Conversion::Converted(x as i8),
        Conversion::TypeError => Conversion::TypeError,
        Conversion::NeedsEngine => Conversion::NeedsEngine,
    }
}

pub open spec fn narrow_u8(c: Conversion<int>) -> Conversion<u8> {
    match c {
        Conversion::Converted(x) => Conversion::Converted(x as u8),
        Conversion::TypeError => Conversion::TypeError,
        Conversion::NeedsEngine => Conversion::NeedsEngine,
    }
}

pub open spec fn narrow_i16(c: Conversion<int>) -> Conversion<i16> {
    match c {
        Conversion::Converted(x) => Conversion::Converted(x as i16),
        Conversion::TypeError => Conversion::TypeError,
        Conversion::NeedsEngine => Conversion::NeedsEngine,
    }
}

pub open spec fn narrow_u16(c: Conversion<int>) -> Conversion<u16> {
    match c {
        Conversion::Converted(x) => Conversion::Converted(x as u16),
        Conversion::TypeError => Conversion::TypeError,
        Conversion::NeedsEngine => Conversion::NeedsEngine,
    }
}

pub open spec fn narrow_i32(c: Conversion<int>) -> Conversion<i32> {
    match c {
        Conversion::Converted(x) => Conversion::Converted(x as i32),
        Conversion::TypeError => Conversion::TypeError,
        Conversion::NeedsEngine => Conversion::NeedsEngine,
    }
}

pub open spec fn narrow_u32(c: Conversion<int>) -> Conversion<u32> {
    match c {
        Conversion::Converted(x) => Conversion::Converted(x as u32),
        Conversion::TypeError => Conversion::TypeError,
        Conversion::NeedsEngine => Conversion::NeedsEngine,
    }
}

pub open spec fn narrow_i64(c: Conversion<int>) -> Conversion<i64> {
    match c {
        Conversion::Converted(x) => Conversion::Converted(x as i64),
        Conversion::TypeError => Conversion::TypeError,
        Conversion::NeedsEngine => Conversion::NeedsEngine,
    }
}

pub open spec fn narrow_u64(c: Conversion<int>) -> Conversion<u64> {
    match c {
        Conversion::Converted(x) => Conversion::Converted(x as u64),
        Conversion::TypeError => Conversion::TypeError,
        Conversion::NeedsEngine => Conversion::NeedsEngine,
    }
}

/// Converting a boolean to a value and back gives the boolean.
pub proof fn lemma_bool_roundtrip(b: bool)
    ensures
        <bool as FromJSValConvertible>::decided(b.js_value(), ()) == Conversion::Converted(b),
{
    lemma_boolean_value(b);
}

/// Converting an `i8` to a value and back gives it, under every behavior.
pub proof fn lemma_i8_roundtrip(x: i8, option: ConversionBehavior)
    ensures
        <i8 as FromJSValConvertible>::decided(x.js_value(), option) == Conversion::Converted(x),
{
    lemma_int32_value(x as i32);
}

/// Converting a `u8` to a value and back gives it, under every behavior.
pub proof fn lemma_u8_roundtrip(x: u8, option: ConversionBehavior)
    ensures
        <u8 as FromJSValConvertible>::decided(x.js_value(), option) == Conversion::Converted(x),
{
    lemma_int32_value(x as i32);
}

/// Converting an `i16` to a value and back gives it, under every behavior.
pub proof fn lemma_i16_roundtrip(x: i16, option: ConversionBehavior)
    ensures
        <i16 as FromJSValConvertible>::decided(x.js_value(), option) == Conversion::Converted(x),
{
    lemma_int32_value(x as i32);
}

/// Converting a `u16` to a value and back gives it, under every behavior.
pub proof fn lemma_u16_roundtrip(x: u16, option: ConversionBehavior)
    ensures
        <u16 as FromJSValConvertible>::decided(x.js_value(), option) == Conversion::Converted(x),
{
    lemma_int32_value(x as i32);
}

/// Converting an `i32` to a value and back gives it, under every behavior.
pub proof fn lemma_i32_roundtrip(x: i32, option: ConversionBehavior)
    ensures
        <i32 as FromJSValConvertible>::decided(x.js_value(), option) == Conversion::Converted(x),
{
    lemma_int32_value(x);
}

/// Converting a `u32` that fits an int32 to a value and back gives it, under
/// every behavior; a larger one becomes a double, which the engine converts.
pub proof fn lemma_u32_roundtrip(x: u32, option: ConversionBehavior)
    ensures
        x <= 0x7fff_ffff ==> <u32 as FromJSValConvertible>::decided(x.js_value(), option)
            == Conversion::Converted(x),
        x > 0x7fff_ffff ==> <u32 as FromJSValConvertible>::decided(x.js_value(), option)
            == Conversion::<u32>::NeedsEngine,
{
    lemma_uint32_value(x);
    if x <= 0x7fff_ffff {
        lemma_int32_value(x as i32);
    }
}

/// Converting an optional integer to a value and back gives it: `None`
/// becomes `null`, which converts back to `None`.
pub proof fn lemma_option_i32_roundtrip(x: Option<i32>, option: ConversionBehavior)
    ensures
        <Option<i32> as FromJSValConvertible>::decided(x.js_value(), option) == Conversion::Converted(
            x,
        ),
{
    lemma_null_value();
    match x {
        Some(i) => lemma_int32_value(i),
        None => {},
    }
}

/// `null` and `undefined` convert to `None` whatever the inner type.
pub proof fn lemma_option_of_null<T: FromJSValConvertible>(val: JSVal, option: T::Config)
    requires
        bits_is_null_or_undefined(val.data),
    ensures
        <Option<T> as FromJSValConvertible>::decided(val, option) == Conversion::<Option<T>>::Converted(
            None,
        ),
{
}

/// The object that a value is converted to a sequence from. Only objects
/// convert to sequences; any other value is a TypeError ("Non objects cannot
/// be converted to sequence").
pub fn sequence_object(val: &JSVal) -> (r: Conversion<u64>)
    requires
        tag_in_range(val.data),
        bits_is_object(val.data) ==> payload_aligned(val.data),
    ensures
        r == (if bits_is_object(val.data) {
            Conversion::Converted(payload_of(val.data) as u64)
        } else {
            Conversion::TypeError
        }),
{
    if val.is_object() {
        Conversion::Converted(val.to_object())
    } else {
        Conversion::TypeError
    }
}

/// What converting a sequence from an iterator gives for `outcomes`, the
/// outcomes of the iterator in order (`Ok(Some(x))`: the next value, `x`
/// once converted; `Ok(None)`: no more values; `Err`: fetching or converting
/// failed): the values before the first end, or a failure at the first
/// failure; `None` while neither has come.
pub open spec fn sequence_result<T>(outcomes: Seq<Result<Option<T>, ()>>) -> Option<Result<Seq<T>, ()>>
    decreases outcomes.len(),
{
    if outcomes.len() == 0 {
        None
    } else {
        match outcomes[0] {
            Ok(None) => Some(Ok(Seq::empty())),
            Err(_) => Some(Err(())),
            Ok(Some(x)) => match sequence_result(outcomes.drop_first()) {
                Some(Ok(rest)) => Some(Ok(seq![x] + rest)),
                other => other,
            },
        }
    }
}

/// The values in outcomes that are all `Ok(Some)`.
pub open spec fn outcome_values<T>(outcomes: Seq<Result<Option<T>, ()>>) -> Seq<T> {
    outcomes.map_values(|o: Result<Option<T>, ()>| o->Ok_0->Some_0)
}

/// Every outcome is a value.
pub open spec fn all_values<T>(outcomes: Seq<Result<Option<T>, ()>>) -> bool {
    forall|i: int| 0 <= i < outcomes.len() ==> #[trigger] outcomes[i] matches Ok(Some(_))
}

/// After outcomes that are all values, one more outcome ends the conversion
/// with those values (an end), fails it (a failure), or leaves it going (a
/// value).
proof fn lemma_sequence_result_push<T>(fed: Seq<Result<Option<T>, ()>>, o: Result<Option<T>, ()>)
    requires
        all_values(fed),
    ensures
        sequence_result(fed) is None,
        sequence_result(fed.push(o)) == (match o {
            Ok(None) => Some(Ok(outcome_values(fed))),
            Err(_) => Some(Err(())),
            Ok(Some(_)) => None::<Result<Seq<T>, ()>>,
        }),
    decreases fed.len(),
{
    if fed.len() > 0 {
        let rest = fed.drop_first();
        assert(all_values(rest)) by {
            assert forall|i: int| 0 <= i < rest.len() implies #[trigger] rest[i] matches Ok(Some(_)) by {
                assert(rest[i] == fed[i + 1]);
            }
        }
        lemma_sequence_result_push(rest, o);
        assert(fed.push(o).drop_first() =~= rest.push(o));
        assert(fed.push(o)[0] == fed[0]);
        assert(fed[0] matches Ok(Some(_)));
        assert(outcome_values(fed) =~= seq![fed[0]->Ok_0->Some_0] + outcome_values(rest));
    } else {
        assert(fed.push(o).drop_first() =~= Seq::<Result<Option<T>, ()>>::empty());
        assert(fed.push(o)[0] == o);
        assert(sequence_result(Seq::<Result<Option<T>, ()>>::empty()) is None);
        assert(outcome_values(fed) =~= Seq::<T>::empty());
    }
}

/// What converting a sequence asks for after a step.
#[derive(PartialEq, Eq, Clone, Copy, Structural, Debug)]
pub enum SequenceStep {
    /// The next outcome of the iterator.
    Next,
    /// Nothing: the conversion is over and succeeded.
    Finished,
    /// Nothing: the conversion is over and failed.
    Failed,
}

/// Converting a sequence from an iterator, one outcome at a time: the caller
/// fetches and converts each value and hands in the outcome.
pub struct SequenceConversion<T> {
    items: Vec<T>,
    over: bool,
    fed: Ghost<Seq<Result<Option<T>, ()>>>,
}

impl<T> SequenceConversion<T> {
    /// The outcomes handed in so far, in order.
    pub closed spec fn outcomes(&self) -> Seq<Result<Option<T>, ()>> {
        self.fed@
    }

    /// The values converted so far.
    pub closed spec fn values(&self) -> Seq<T> {
        self.items@
    }

    /// The conversion is over (it has finished or failed).
    pub closed spec fn is_over(&self) -> bool {
        self.over
    }

    /// What the conversion keeps: while it goes on every outcome was a value
    /// and the values are those converted; once over, it has its result.
    pub closed spec fn wf(&self) -> bool {
        &&& !self.over ==> all_values(self.fed@) && self.items@ == outcome_values(self.fed@)
        &&& self.over ==> sequence_result(self.fed@) is Some
        &&& self.over ==> (sequence_result(self.fed@) matches Some(Ok(v)) ==> v == self.items@)
    }

    /// A conversion before any outcome.
    pub fn new() -> (r: Self)
        ensures
            r.wf(),
            !r.is_over(),
            r.outcomes() == Seq::<Result<Option<T>, ()>>::empty(),
            r.values() == Seq::<T>::empty(),
    {
        let r = SequenceConversion { items: Vec::new(), over: false, fed: Ghost(Seq::empty()) };
        assert(r.items@ =~= outcome_values(r.fed@));
        r
    }

    /// Whether the conversion is over.
    pub fn over(&self) -> (r: bool)
        ensures
            r == self.is_over(),
    {
        self.over
    }

    /// Takes the next outcome of the iterator: a value is kept and the next
    /// outcome asked for; the end finishes the conversion with the values
    /// kept; a failure fails it. The result is then what `sequence_result`
    /// gives for all the outcomes handed in.
    pub fn step(&mut self, outcome: Result<Option<T>, ()>) -> (r: SequenceStep)
        requires
            old(self).wf(),
            !old(self).is_over(),
        ensures
            final(self).wf(),
            final(self).outcomes() == old(self).outcomes().push(outcome),
            final(self).is_over() == !(r is Next),
            sequence_result(final(self).outcomes()) == (match r {
                SequenceStep::Next => None,
                SequenceStep::Finished => Some(Ok(final(self).values())),
                SequenceStep::Failed => Some(Err(())),
            }),
            outcome matches Ok(Some(x)) ==> r is Next && final(self).values() == old(self).values().push(x),
            outcome matches Ok(None) ==> r is Finished && final(self).values() == old(self).values(),
            outcome is Err ==> r is Failed,
    {
        proof {
            lemma_sequence_result_push(self.fed@, outcome);
        }
        let ghost before = self.fed@;
        self.fed = Ghost(self.fed@.push(outcome));
        match outcome {
            Ok(Some(x)) => {
                self.items.push(x);
                proof {
                    assert(all_values(self.fed@)) by {
                        assert forall|i: int| 0 <= i < self.fed@.len() implies #[trigger] self.fed@[i] matches Ok(Some(_)) by {
                            if i < before.len() {
                                assert(self.fed@[i] == before[i]);
                            }
                        }
                    }
                    assert(outcome_values(self.fed@) =~= outcome_values(before).push(x));
                }
                SequenceStep::Next
            },
            Ok(None) => {
                self.over = true;
                SequenceStep::Finished
            },
            Err(()) => {
                self.over = true;
                SequenceStep::Failed
            },
        }
    }

    /// The values of a finished conversion.
    pub fn finish(self) -> (r: Vec<T>)
        requires
            self.wf(),
            sequence_result(self.outcomes()) matches Some(Ok(_)),
            self.is_over(),
        ensures
            sequence_result(self.outcomes()) == Some(Ok::<Seq<T>, ()>(r@)),
    {
        self.items
    }
}

/// The characters U+0000..U+00FF of Latin-1 bytes, one per byte.
pub open spec fn latin1_chars(bytes: Seq<u8>) -> Seq<char> {
    bytes.map_values(|b: u8| b as char)
}

/// Converts a string encoded in "Latin1" (i.e. U+0000-U+00FF encoded as
/// 0x00-0xFF) into a `String`.
pub fn latin1_to_string(bytes: &[u8]) -> (r: String)
    ensures
        r@ == latin1_chars(bytes@),
{
    let mut s = String::new();
    let mut i: usize = 0;
    while i < bytes.len()
        invariant
            i <= bytes.len(),
            s@ == latin1_chars(bytes@.take(i as int)),
        decreases bytes.len() - i,
    {
        let c = bytes[i] as char;
        push_char(&mut s, c);
        assert(bytes@.take(i as int + 1) == bytes@.take(i as int).push(bytes@[i as int]));
        i = i + 1;
    }
    assert(bytes@.take(bytes.len() as int) == bytes@);
    s
}

/// `i % m` and `wrap_signed(i, m)` differ from `i` by a multiple of `m`, and
/// lie in `0..m` and `-m/2..m/2`.
proof fn lemma_wraps(i: int, m: int)
    requires
        m > 0,
        m % 2 == 0,
    ensures
        0 <= i % m < m,
        (i % m - i) % m == 0,
        -(m / 2) <= wrap_signed(i, m) < m / 2,
        (wrap_signed(i, m) - i) % m == 0,
{
    lemma_fundamental_div_mod(i, m);
    let q = i / m;
    assert(i % m - i == (-q) * m) by (nonlinear_arith)
        requires
            i == m * q + i % m,
    ;
    lemma_mod_multiples_basic(-q, m);
    assert(i % m - m - i == (-q - 1) * m) by (nonlinear_arith)
        requires
            i == m * q + i % m,
    ;
    lemma_mod_multiples_basic(-q - 1, m);
}

/// `true` and `false` become boolean values carrying them, and nothing else.
pub proof fn lemma_bool_to_jsval(b: bool)
    ensures
        tag_in_range(b.js_value().data),
        bits_is_boolean(b.js_value().data),
        !bits_is_number(b.js_value().data),
        !bits_is_int32(b.js_value().data),
        (payload_of(b.js_value().data) != 0) == b,
{
    lemma_boolean_value(b);
}

/// `()` becomes `undefined`.
pub proof fn lemma_unit_to_jsval()
    ensures
        bits_is_undefined(().js_value().data),
{
    lemma_undefined_value();
}

/// The integer types that fit an int32 become the int32 value of the same
/// integer; a `u32` beyond the int32 range becomes the double equal to it.
pub proof fn lemma_ints_to_jsval(a: i8, b: u8, c: i16, d: u16, e: i32, f: u32)
    ensures
        bits_is_int32(a.js_value().data) && int32_of(a.js_value().data) == a,
        bits_is_int32(b.js_value().data) && int32_of(b.js_value().data) == b,
        bits_is_int32(c.js_value().data) && int32_of(c.js_value().data) == c,
        bits_is_int32(d.js_value().data) && int32_of(d.js_value().data) == d,
        bits_is_int32(e.js_value().data) && int32_of(e.js_value().data) == e,
        f <= 0x7fff_ffff ==> bits_is_int32(f.js_value().data) && int32_of(f.js_value().data) == f,
        f > 0x7fff_ffff ==> bits_is_double(f.js_value().data) && double_integer_value(
            f.js_value().data,
        ) == f,
{
    lemma_int32_value(a as i32);
    lemma_int32_value(b as i32);
    lemma_int32_value(c as i32);
    lemma_int32_value(d as i32);
    lemma_int32_value(e);
    lemma_uint32_value(f);
}

/// `None` becomes `null`, and `Some(v)` the value `v` becomes.
pub proof fn lemma_option_to_jsval<T: ToJSValConvertible>(x: Option<T>)
    ensures
        x is None ==> bits_is_null(x.js_value().data),
        x matches Some(v) ==> x.js_value() == v.js_value(),
{
}

/// A nullable type reads `null` and `undefined` as `None` and nothing else
/// as `None`: any other value converts as the inner type does, wrapped in
/// `Some`, fails when it fails and needs the engine when it does.
pub proof fn lemma_option_from_jsval<T: FromJSValConvertible>(val: JSVal, option: T::Config)
    ensures
        (<Option<T> as FromJSValConvertible>::decided(val, option) == Conversion::<Option<T>>::Converted(
            None,
        )) <==> bits_is_null_or_undefined(val.data),
        !bits_is_null_or_undefined(val.data) ==> {
            &&& T::decided(val, option) matches Conversion::Converted(x) ==> <Option<
                T,
            > as FromJSValConvertible>::decided(val, option) == Conversion::Converted(Some(x))
            &&& T::decided(val, option) is TypeError ==> <Option<T> as FromJSValConvertible>::decided(
                val,
                option,
            ) is TypeError
            &&& T::decided(val, option) is NeedsEngine ==> <Option<T> as FromJSValConvertible>::decided(
                val,
                option,
            ) is NeedsEngine
        },
{
}

/// An int32 `i` converts to `i8` as WebIDL says: `Default` wraps it modulo
/// 2^8 into -128..=127, `EnforceRange` fails outside that range, and `Clamp`
/// clamps into it.
pub proof fn lemma_i8_from_int32(i: i32, option: ConversionBehavior)
    ensures
        ({
            let r = <i8 as FromJSValConvertible>::decided(JSVal { data: int32_bits(i) }, option);
            match option {
                ConversionBehavior::Default => r matches Conversion::Converted(x) && (x - i) % 0x100
                    == 0,
                ConversionBehavior::EnforceRange => if -0x80 <= i <= 0x7f {
                    r == Conversion::Converted(i as i8)
                } else {
                    r is TypeError
                },
                ConversionBehavior::Clamp => r == Conversion::Converted(
                    if i < -0x80 {
                        -0x80i8
                    } else if i > 0x7f {
                        0x7fi8
                    } else {
                        i as i8
                    },
                ),
            }
        }),
{
    lemma_int32_value(i);
    lemma_wraps(i as int, 0x100);
}

/// An int32 `i` converts to `u8`: `Default` wraps it modulo 2^8 into
/// 0..=255, `EnforceRange` fails outside that range, `Clamp` clamps into it.
pub proof fn lemma_u8_from_int32(i: i32, option: ConversionBehavior)
    ensures
        ({
            let r = <u8 as FromJSValConvertible>::decided(JSVal { data: int32_bits(i) }, option);
            match option {
                ConversionBehavior::Default => r matches Conversion::Converted(x) && (x - i) % 0x100
                    == 0,
                ConversionBehavior::EnforceRange => if 0 <= i <= 0xff {
                    r == Conversion::Converted(i as u8)
                } else {
                    r is TypeError
                },
                ConversionBehavior::Clamp => r == Conversion::Converted(
                    if i < 0 {
                        0u8
                    } else if i > 0xff {
                        0xffu8
                    } else {
                        i as u8
                    },
                ),
            }
        }),
{
    lemma_int32_value(i);
    lemma_wraps(i as int, 0x100);
}

/// An int32 `i` converts to `i16`: `Default` wraps it modulo 2^16 into
/// -32768..=32767, `EnforceRange` fails outside that range, `Clamp` clamps
/// into it.
pub proof fn lemma_i16_from_int32(i: i32, option: ConversionBehavior)
    ensures
        ({
            let r = <i16 as FromJSValConvertible>::decided(JSVal { data: int32_bits(i) }, option);
            match option {
                ConversionBehavior::Default => r matches Conversion::Converted(x) && (x - i)
                    % 0x1_0000 == 0,
                ConversionBehavior::EnforceRange => if -0x8000 <= i <= 0x7fff {
                    r == Conversion::Converted(i as i16)
                } else {
                    r is TypeError
                },
                ConversionBehavior::Clamp => r == Conversion::Converted(
                    if i < -0x8000 {
                        -0x8000i16
                    } else if i > 0x7fff {
                        0x7fffi16
                    } else {
                        i as i16
                    },
                ),
            }
        }),
{
    lemma_int32_value(i);
    lemma_wraps(i as int, 0x1_0000);
}

/// An int32 `i` converts to `u16`: `Default` wraps it modulo 2^16 into
/// 0..=65535, `EnforceRange` fails outside that range, `Clamp` clamps into
/// it.
pub proof fn lemma_u16_from_int32(i: i32, option: ConversionBehavior)
    ensures
        ({
            let r = <u16 as FromJSValConvertible>::decided(JSVal { data: int32_bits(i) }, option);
            match option {
                ConversionBehavior::Default => r matches Conversion::Converted(x) && (x - i)
                    % 0x1_0000 == 0,
                ConversionBehavior::EnforceRange => if 0 <= i <= 0xffff {
                    r == Conversion::Converted(i as u16)
                } else {
                    r is TypeError
                },
                ConversionBehavior::Clamp => r == Conversion::Converted(
                    if i < 0 {
                        0u16
                    } else if i > 0xffff {
                        0xffffu16
                    } else {
                        i as u16
                    },
                ),
            }
        }),
{
    lemma_int32_value(i);
    lemma_wraps(i as int, 0x1_0000);
}

/// An int32 `i` converts to `i32` and `i64` as itself under every behavior.
pub proof fn lemma_i32_i64_from_int32(i: i32, option: ConversionBehavior)
    ensures
        <i32 as FromJSValConvertible>::decided(JSVal { data: int32_bits(i) }, option)
            == Conversion::Converted(i),
        <i64 as FromJSValConvertible>::decided(JSVal { data: int32_bits(i) }, option)
            == Conversion::Converted(i as i64),
{
    lemma_int32_value(i);
}

/// An int32 `i` converts to `u32` and `u64`: a nonnegative `i` as itself; a
/// negative one wraps modulo 2^32 (`u32`) or 2^64 (`u64`) under `Default`,
/// fails under `EnforceRange` and becomes 0 under `Clamp`.
pub proof fn lemma_u32_u64_from_int32(i: i32, option: ConversionBehavior)
    ensures
        ({
            let r = <u32 as FromJSValConvertible>::decided(JSVal { data: int32_bits(i) }, option);
            let w = <u64 as FromJSValConvertible>::decided(JSVal { data: int32_bits(i) }, option);
            if i >= 0 {
                r == Conversion::Converted(i as u32) && w == Conversion::Converted(i as u64)
            } else {
                match option {
                    ConversionBehavior::Default => r == Conversion::Converted((i + 0x1_0000_0000) as u32)
                        && w == Conversion::Converted((i + 0x1_0000_0000_0000_0000) as u64),
                    ConversionBehavior::EnforceRange => r is TypeError && w is TypeError,
                    ConversionBehavior::Clamp => r == Conversion::Converted(0u32) && w
                        == Conversion::Converted(0u64),
                }
            }
        }),
{
    lemma_int32_value(i);
    lemma_wraps(i as int, 0x1_0000_0000);
    lemma_wraps(i as int, 0x1_0000_0000_0000_0000);
}

/// Latin-1 decoding gives one character per byte, whose code is the byte.
pub proof fn lemma_latin1_chars(bytes: Seq<u8>)
    ensures
        latin1_chars(bytes).len() == bytes.len(),
        forall|i: int| 0 <= i < bytes.len() ==> #[trigger] latin1_chars(bytes)[i] as int == bytes[i] as int,
{
}

} // verus!
