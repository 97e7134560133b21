//! Making a value usable in the compartment of a context. These functions
//! decide; the engine answers their questions (in which compartment an object
//! lives, what its class is, whether a global is a window) and does the
//! wrapping.

use vstd::prelude::*;
use crate::jsval::{
    JSVal, bits_is_string, bits_is_object, bits_is_null, tag_in_range,
    payload_aligned, payload_of,
};
use crate::js::JSCLASS_IS_GLOBAL;
use crate::rust::JSCLASS_IS_DOMJSCLASS;

verus! {

/// What a value needs before it is used in the context's compartment.
#[derive(PartialEq, Eq, Clone, Copy, Structural, Debug)]
pub enum ValueWrap {
    /// Nothing: it can be used as it is.
    Keep,
    /// Wrapping by the engine.
    Wrap,
    /// What `maybe_wrap_object_value` decides for the object at this address.
    Object(u64),
}

/// What an object value needs.
#[derive(PartialEq, Eq, Clone, Copy, Structural, Debug)]
pub enum ObjectWrap {
    /// Nothing.
    Keep,
    /// Wrapping by the engine: the object lives in another compartment.
    Wrap,
    /// Replacing it by its window proxy if it is a window (a DOM object of
    /// the context's own compartment).
    Outerize,
}

/// What an object value needs, given the compartment the object lives in,
/// the context's compartment, and the flags of the object's class.
pub open spec fn object_wrap(object_compartment: u64, context_compartment: u64, class_flags: u32) -> ObjectWrap {
    if object_compartment != context_compartment {
        ObjectWrap::Wrap
    } else if class_flags & JSCLASS_IS_DOMJSCLASS != 0 {
        ObjectWrap::Outerize
    } else {
        ObjectWrap::Keep
    }
}

/// Strings are wrapped, objects are looked at, other values kept.
pub fn maybe_wrap_value(rval: &JSVal) -> (r: ValueWrap)
    requires
        tag_in_range(rval.data),
        bits_is_object(rval.data) ==> payload_aligned(rval.data),
    ensures
        r == (if bits_is_string(rval.data) {
            ValueWrap::Wrap
        } else if bits_is_object(rval.data) {
            ValueWrap::Object(payload_of(rval.data) as u64)
        } else {
            ValueWrap::Keep
        }),
{
    if rval.is_string() {
        ValueWrap::Wrap
    } else if rval.is_object() {
        ValueWrap::Object(rval.to_object())
    } else {
        ValueWrap::Keep
    }
}

/// `null` is kept; an object is looked at.
pub fn maybe_wrap_object_or_null_value(rval: &JSVal) -> (r: ValueWrap)
    requires
        tag_in_range(rval.data),
        bits_is_null(rval.data) || bits_is_object(rval.data),
        payload_aligned(rval.data),
    ensures
        r == (if bits_is_null(rval.data) {
            ValueWrap::Keep
        } else {
            ValueWrap::Object(payload_of(rval.data) as u64)
        }),
{
    if rval.is_null() {
        ValueWrap::Keep
    } else {
        ValueWrap::Object(rval.to_object())
    }
}

/// An object of another compartment is wrapped; a DOM object of the
/// context's compartment may be a window, to be outerized; others are kept.
pub fn maybe_wrap_object_value(object_compartment: u64, context_compartment: u64, class_flags: u32) -> (r: ObjectWrap)
    ensures
        r == object_wrap(object_compartment, context_compartment, class_flags),
{
    if object_compartment != context_compartment {
        ObjectWrap::Wrap
    } else if class_flags & JSCLASS_IS_DOMJSCLASS != 0 {
        ObjectWrap::Outerize
    } else {
        ObjectWrap::Keep
    }
}

/// Whether an object of a class with these flags can be a window: only
/// globals can; the engine tells which globals are.
pub fn may_be_window(class_flags: u32) -> (r: bool)
    ensures
        r == (class_flags & JSCLASS_IS_GLOBAL != 0),
        r == ((class_flags / 0x2_0000) % 2 == 1),
{
    proof {
        lemma_may_be_window(class_flags);
    }
    class_flags & JSCLASS_IS_GLOBAL != 0
}

/// In the context's compartment an object is outerized exactly when bit 4 of
/// its class flags (`JSCLASS_IS_DOMJSCLASS`) is set, whatever its other
/// flags; an object of another compartment is always wrapped, and nothing
/// else is kept.
pub proof fn lemma_object_wrap(object_compartment: u64, context_compartment: u64, class_flags: u32)
    ensures
        (object_wrap(object_compartment, context_compartment, class_flags) == ObjectWrap::Wrap)
            <==> object_compartment != context_compartment,
        (object_wrap(object_compartment, context_compartment, class_flags) == ObjectWrap::Outerize)
            <==> (object_compartment == context_compartment && (class_flags / 0x10) % 2 == 1),
        (object_wrap(object_compartment, context_compartment, class_flags) == ObjectWrap::Keep)
            <==> (object_compartment == context_compartment && (class_flags / 0x10) % 2 == 0),
{
    assert((class_flags & 0x10u32 != 0) == ((class_flags / 0x10) % 2 == 1)) by (bit_vector);
}

/// Only the global bit (bit 17) of class flags decides whether an object of
/// the class may be a window.
pub proof fn lemma_may_be_window(class_flags: u32)
    ensures
        (class_flags & JSCLASS_IS_GLOBAL != 0) == ((class_flags / 0x2_0000) % 2 == 1),
{
    assert((class_flags & 0x2_0000u32 != 0) == ((class_flags / 0x2_0000) % 2 == 1)) by (bit_vector);
}

} // verus!
