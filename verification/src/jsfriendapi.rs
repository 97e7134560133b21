//! Information the JIT keeps about a native accessor, and the packing of its
//! first bitfield word.

use vstd::prelude::*;

verus! {

/// Information about a native getter, setter or method.
pub struct JSJitInfo {
    /// The address of the native operation.
    pub op: u64,
    pub protoID: u32,
    pub depth: u32,
    pub isInfallible: bool,
    pub isConstant: bool,
}

/// The number of a flag: 1 when set.
pub open spec fn flag_bit(b: bool) -> u32 {
    if b { 1 } else { 0 }
}

/// The first bitfield word of a `JSJitInfo`: type in bits 0..3, alias set in
/// 4..7, return type in 8..15, the six flags in bits 16..21 and the slot
/// index from bit 22 up. Bits of a field that do not fit its place are lost
/// or overlap the next field, as in the engine's own packing.
pub open spec fn jitinfo_bitfield_1(
    type_: u32,
    aliasSet_: u32,
    returnType_: u32,
    isInfallible: bool,
    isMovable: bool,
    isEliminatable: bool,
    isAlwaysInSlot: bool,
    isLazilyCachedInSlot: bool,
    isTypedMethod: bool,
    slotIndex: u32,
) -> u32 {
    0u32 | (type_ << 0u32) | (aliasSet_ << 4u32) | (returnType_ << 8u32) | (flag_bit(isInfallible)
        << 16u32) | (flag_bit(isMovable) << 17u32) | (flag_bit(isEliminatable) << 18u32) | (
    flag_bit(isAlwaysInSlot) << 19u32) | (flag_bit(isLazilyCachedInSlot) << 20u32) | (flag_bit(
        isTypedMethod,
    ) << 21u32) | (slotIndex << 22u32)
}

/// Packs the first bitfield word of a `JSJitInfo`.
pub fn new_jsjitinfo_bitfield_1(
    type_: u32,
    aliasSet_: u32,
    returnType_: u32,
    isInfallible: bool,
    isMovable: bool,
    isEliminatable: bool,
    isAlwaysInSlot: bool,
    isLazilyCachedInSlot: bool,
    isTypedMethod: bool,
    slotIndex: u32,
) -> (r: u32)
    ensures
        r == jitinfo_bitfield_1(
            type_,
            aliasSet_,
            returnType_,
            isInfallible,
            isMovable,
            isEliminatable,
            isAlwaysInSlot,
            isLazilyCachedInSlot,
            isTypedMethod,
            slotIndex,
        ),
        type_ < 0x10 && aliasSet_ < 0x10 && returnType_ < 0x100 && slotIndex < 0x400 ==> {
            &&& r & 0xf == type_
            &&& (r >> 4u32) & 0xf == aliasSet_
            &&& (r >> 8u32) & 0xff == returnType_
            &&& (r >> 16u32) & 1 == flag_bit(isInfallible)
            &&& (r >> 17u32) & 1 == flag_bit(isMovable)
            &&& (r >> 18u32) & 1 == flag_bit(isEliminatable)
            &&& (r >> 19u32) & 1 == flag_bit(isAlwaysInSlot)
            &&& (r >> 20u32) & 1 == flag_bit(isLazilyCachedInSlot)
            &&& (r >> 21u32) & 1 == flag_bit(isTypedMethod)
            &&& r >> 22u32 == slotIndex
        },
{
    proof {
        if type_ < 0x10 && aliasSet_ < 0x10 && returnType_ < 0x100 && slotIndex < 0x400 {
            lemma_jitinfo_bitfield_1_fields(
                type_,
                aliasSet_,
                returnType_,
                isInfallible,
                isMovable,
                isEliminatable,
                isAlwaysInSlot,
                isLazilyCachedInSlot,
                isTypedMethod,
                slotIndex,
            );
        }
    }
    0 | (type_ << 0u32) | (aliasSet_ << 4u32) | (returnType_ << 8u32) | ((isInfallible as u32)
        << 16u32) | ((isMovable as u32) << 17u32) | ((isEliminatable as u32) << 18u32) | ((
    isAlwaysInSlot as u32) << 19u32) | ((isLazilyCachedInSlot as u32) << 20u32) | ((
    isTypedMethod as u32) << 21u32) | (slotIndex << 22u32)
}

/// When every field fits its place, each field reads back from the packed
/// word.
pub proof fn lemma_jitinfo_bitfield_1_fields(
    type_: u32,
    aliasSet_: u32,
    returnType_: u32,
    isInfallible: bool,
    isMovable: bool,
    isEliminatable: bool,
    isAlwaysInSlot: bool,
    isLazilyCachedInSlot: bool,
    isTypedMethod: bool,
    slotIndex: u32,
)
    requires
        type_ < 0x10,
        aliasSet_ < 0x10,
        returnType_ < 0x100,
        slotIndex < 0x400,
    ensures
        ({
            let w = jitinfo_bitfield_1(
                type_,
                aliasSet_,
                returnType_,
                isInfallible,
                isMovable,
                isEliminatable,
                isAlwaysInSlot,
                isLazilyCachedInSlot,
                isTypedMethod,
                slotIndex,
            );
            &&& w & 0xf == type_
            &&& (w >> 4u32) & 0xf == aliasSet_
            &&& (w >> 8u32) & 0xff == returnType_
            &&& (w >> 16u32) & 1 == flag_bit(isInfallible)
            &&& (w >> 17u32) & 1 == flag_bit(isMovable)
            &&& (w >> 18u32) & 1 == flag_bit(isEliminatable)
            &&& (w >> 19u32) & 1 == flag_bit(isAlwaysInSlot)
            &&& (w >> 20u32) & 1 == flag_bit(isLazilyCachedInSlot)
            &&& (w >> 21u32) & 1 == flag_bit(isTypedMethod)
            &&& w >> 22u32 == slotIndex
        }),
{
    let a = flag_bit(isInfallible);
    let b = flag_bit(isMovable);
    let c = flag_bit(isEliminatable);
    let d = flag_bit(isAlwaysInSlot);
    let e = flag_bit(isLazilyCachedInSlot);
    let f = flag_bit(isTypedMethod);
    let w = 0u32 | (type_ << 0u32) | (aliasSet_ << 4u32) | (returnType_ << 8u32) | (a << 16u32) | (b
        << 17u32) | (c << 18u32) | (d << 19u32) | (e << 20u32) | (f << 21u32) | (slotIndex << 22u32);
    assert({
        &&& w & 0xf == type_
        &&& (w >> 4u32) & 0xf == aliasSet_
        &&& (w >> 8u32) & 0xff == returnType_
        &&& (w >> 16u32) & 1 == a
        &&& (w >> 17u32) & 1 == b
        &&& (w >> 18u32) & 1 == c
        &&& (w >> 19u32) & 1 == d
        &&& (w >> 20u32) & 1 == e
        &&& (w >> 21u32) & 1 == f
        &&& w >> 22u32 == slotIndex
    }) by (bit_vector)
        requires
            type_ < 0x10,
            aliasSet_ < 0x10,
            returnType_ < 0x100,
            slotIndex < 0x400,
            a < 2,
            b < 2,
            c < 2,
            d < 2,
            e < 2,
            f < 2,
            w == 0u32 | (type_ << 0u32) | (aliasSet_ << 4u32) | (returnType_ << 8u32) | (a << 16u32)
                | (b << 17u32) | (c << 18u32) | (d << 19u32) | (e << 20u32) | (f << 21u32) | (
            slotIndex << 22u32),
    ;
}

} // verus!
