//! Runtime and context handles, shared through reference counting.
//! The engine objects are held by address. These handles release nothing:
//! the engine-facing side keeps them in owners that destroy the context when
//! it is dropped and finish the runtime when its last handle is dropped.

use vstd::prelude::*;
use std::rc::Rc;

verus! {

/// A runtime of the engine.
pub struct rt_rsrc {
    pub ptr: u64,
}

/// A shared runtime.
pub type rt = Rc<rt_rsrc>;

/// Shares the runtime at address `p`.
pub fn new_runtime(p: u64) -> (r: rt)
    ensures
        r.ptr == p,
{
    Rc::new(rt_rsrc { ptr: p })
}

/// A context of the engine, with the runtime it belongs to.
pub struct Cx {
    pub ptr: u64,
    pub rt: rt,
}

/// Shares the context at address `ptr` of the runtime `rt`.
pub fn new_context(ptr: u64, rt: rt) -> (r: Rc<Cx>)
    ensures
        r.ptr == ptr,
        r.rt == rt,
{
    Rc::new(Cx { ptr: ptr, rt: rt })
}

} // verus!
