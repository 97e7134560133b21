//! Rust-side helpers around the engine: the inline fast paths of the value
//! converters, class flags, handles and the bookkeeping of runtimes.
//!
//! The converters decide what they can from the value's word alone and answer
//! `None` where only the engine can convert (strings, objects and other
//! things that need a context); the caller then asks the engine.

use vstd::prelude::*;
use crate::jsval::{
    JSVal, bits_is_boolean, bits_is_int32, bits_is_null_or_undefined, bits_is_double,
    bits_is_symbol, bits_is_number, bits_is_string, payload_of, int32_of, number_is_canonical,
    number_bits, fits_payload, JSVAL_SHIFTED_TAG_MAX_DOUBLE, JSVAL_SHIFTED_TAG_SYMBOL, boolean_bits,
    int32_bits, null_bits, undefined_bits, string_bits, object_bits, lemma_boolean_value,
    lemma_int32_value, lemma_string_value, lemma_object_value, lemma_null_value,
    lemma_undefined_value, lemma_double_value,
};
use crate::number::{double_bits_of_int, double_integer_value, lemma_double_bits_of_int_value};
use crate::js::{JSCLASS_IS_GLOBAL, JSCLASS_GLOBAL_SLOT_COUNT, JSCLASS_HAS_RESERVED_SLOTS, global_slot_count};

verus! {

/// The double with these IEEE-754 bits is a NaN: all exponent bits set and a
/// nonzero fraction.
pub open spec fn double_is_nan(bits: u64) -> bool {
    (bits as int / 0x10_0000_0000_0000) % 0x800 == 0x7FF && bits as int % 0x10_0000_0000_0000 != 0
}

/// The double with these IEEE-754 bits is `+0.0` or `-0.0`.
pub open spec fn double_is_zero(bits: u64) -> bool {
    bits as int % 0x8000_0000_0000_0000 == 0
}

/// What `ToBoolean` decides from the word alone.
pub open spec fn to_boolean_fast(bits: u64) -> Option<bool> {
    if bits_is_boolean(bits) {
        Some(payload_of(bits) != 0)
    } else if bits_is_int32(bits) {
        Some(int32_of(bits) != 0)
    } else if bits_is_null_or_undefined(bits) {
        Some(false)
    } else if bits_is_double(bits) {
        Some(!double_is_nan(bits) && !double_is_zero(bits))
    } else if bits_is_symbol(bits) {
        Some(true)
    } else {
        None
    }
}

proof fn lemma_double_tests(bits: u64)
    ensures
        ((bits & 0x7FF0_0000_0000_0000u64) == 0x7FF0_0000_0000_0000u64 && (bits
            & 0x000F_FFFF_FFFF_FFFFu64) != 0) == double_is_nan(bits),
        ((bits & 0x7FFF_FFFF_FFFF_FFFFu64) == 0) == double_is_zero(bits),
{
    assert(((bits & 0x7FF0_0000_0000_0000u64) == 0x7FF0_0000_0000_0000u64) == ((bits
        / 0x10_0000_0000_0000u64) % 0x800u64 == 0x7FFu64)) by (bit_vector);
    assert((bits & 0x000F_FFFF_FFFF_FFFFu64) == bits % 0x10_0000_0000_0000u64) by (bit_vector);
    assert((bits & 0x7FFF_FFFF_FFFF_FFFFu64) == bits % 0x8000_0000_0000_0000u64) by (bit_vector);
}

/// `ToBoolean` as far as the word decides it: booleans, int32s (nonzero),
/// `null` and `undefined` (false), doubles (neither NaN nor zero) and symbols
/// (true). `None` for strings, objects and other things, which the engine's
/// slow path converts.
pub fn ToBoolean(v: &JSVal) -> (r: Option<bool>)
    ensures
        r == to_boolean_fast(v.data),
{
    if v.is_boolean() {
        return Some(v.to_boolean());
    }
    if v.is_int32() {
        return Some(v.to_int32() != 0);
    }
    if v.is_null_or_undefined() {
        return Some(false);
    }
    if v.is_double() {
        let d = v.to_double();
        proof {
            lemma_double_tests(d);
        }
        let is_nan = (d & 0x7FF0_0000_0000_0000) == 0x7FF0_0000_0000_0000 && (d
            & 0x000F_FFFF_FFFF_FFFF) != 0;
        let is_zero = (d & 0x7FFF_FFFF_FFFF_FFFF) == 0;
        return Some(!is_nan && !is_zero);
    }
    if v.is_symbol() {
        return Some(true);
    }
    None
}

/// `ToNumber` of a number: the bits of the double it equals. `None` for other
/// values, which the engine converts.
pub fn ToNumber(v: &JSVal) -> (r: Option<u64>)
    requires
        number_is_canonical(v.data),
    ensures
        r == (if bits_is_number(v.data) { Some(number_bits(v.data)) } else { None::<u64> }),
{
    if v.is_number() {
        Some(v.to_number())
    } else {
        None
    }
}

/// `ToInt32` of an int32 value: its integer. `None` otherwise.
pub fn ToInt32(v: &JSVal) -> (r: Option<i32>)
    ensures
        r == (if bits_is_int32(v.data) { Some(int32_of(v.data) as i32) } else { None::<i32> }),
{
    if v.is_int32() {
        Some(v.to_int32())
    } else {
        None
    }
}

/// `ToUint32` of an int32 value: its integer modulo `2^32`. `None` otherwise.
pub fn ToUint32(v: &JSVal) -> (r: Option<u32>)
    ensures
        r == (if bits_is_int32(v.data) {
            Some((int32_of(v.data) % 0x1_0000_0000) as u32)
        } else {
            None::<u32>
        }),
{
    if v.is_int32() {
        let i = v.to_int32();
        assert((i as u32) as int == (i as int) % 0x1_0000_0000) by (bit_vector);
        Some(i as u32)
    } else {
        None
    }
}

/// `ToUint16` of an int32 value: its integer modulo `2^16`. `None` otherwise.
pub fn ToUint16(v: &JSVal) -> (r: Option<u16>)
    ensures
        r == (if bits_is_int32(v.data) {
            Some((int32_of(v.data) % 0x1_0000) as u16)
        } else {
            None::<u16>
        }),
{
    if v.is_int32() {
        let i = v.to_int32();
        assert((i as u16) as int == (i as int) % 0x1_0000) by (bit_vector);
        Some(i as u16)
    } else {
        None
    }
}

/// `ToInt64` of an int32 value: its integer. `None` otherwise.
pub fn ToInt64(v: &JSVal) -> (r: Option<i64>)
    ensures
        r == (if bits_is_int32(v.data) { Some(int32_of(v.data) as i64) } else { None::<i64> }),
{
    if v.is_int32() {
        Some(v.to_int32() as i64)
    } else {
        None
    }
}

/// `ToUint64` of an int32 value: its integer modulo `2^64`. `None` otherwise.
pub fn ToUint64(v: &JSVal) -> (r: Option<u64>)
    ensures
        r == (if bits_is_int32(v.data) {
            Some((int32_of(v.data) % 0x1_0000_0000_0000_0000) as u64)
        } else {
            None::<u64>
        }),
{
    if v.is_int32() {
        let i = v.to_int32();
        let wide: i64 = i as i64;
        assert((wide as u64) as int == (wide as int) % 0x1_0000_0000_0000_0000) by (bit_vector);
        Some(wide as u64)
    } else {
        None
    }
}

/// `ToString` of a string value: the address of its string. `None` otherwise.
pub fn ToString(v: &JSVal) -> (r: Option<u64>)
    ensures
        r == (if bits_is_string(v.data) { Some(payload_of(v.data) as u64) } else { None::<u64> }),
{
    if v.is_string() {
        Some(v.to_string())
    } else {
        None
    }
}

/// `ToBoolean` of the values the constructors build: a boolean is itself, an
/// int32 is true unless zero, `null` and `undefined` are false, a double is
/// true unless zero or NaN, and strings and objects go to the engine.
pub proof fn lemma_to_boolean_values(b: bool, i: i32, addr: u64, d: u64)
    requires
        fits_payload(addr),
        d <= JSVAL_SHIFTED_TAG_MAX_DOUBLE,
    ensures
        to_boolean_fast(boolean_bits(b)) == Some(b),
        to_boolean_fast(int32_bits(i)) == Some(i != 0),
        to_boolean_fast(null_bits()) == Some(false),
        to_boolean_fast(undefined_bits()) == Some(false),
        to_boolean_fast(d) == Some(!double_is_nan(d) && !double_is_zero(d)),
        to_boolean_fast(0) == Some(false),
        to_boolean_fast(0x8000_0000_0000_0000) == Some(false),
        to_boolean_fast(0x7FF8_0000_0000_0000) == Some(false),
        to_boolean_fast(0x3FF0_0000_0000_0000) == Some(true),
        to_boolean_fast(JSVAL_SHIFTED_TAG_SYMBOL) == Some(true),
        to_boolean_fast(string_bits(addr)) is None,
        to_boolean_fast(object_bits(addr)) is None,
{
    lemma_boolean_value(b);
    lemma_int32_value(i);
    lemma_string_value(addr);
    lemma_object_value(addr);
    lemma_null_value();
    lemma_undefined_value();
    lemma_double_value(d);
}

/// The integer converters read back the integer of an int32 value, and
/// `ToNumber` gives the double equal to it.
pub proof fn lemma_int_conversions_of_int32(i: i32)
    ensures
        bits_is_int32(int32_bits(i)),
        int32_of(int32_bits(i)) == i,
        number_is_canonical(int32_bits(i)),
        number_bits(int32_bits(i)) == double_bits_of_int(i as int),
        double_integer_value(number_bits(int32_bits(i))) == i,
{
    lemma_int32_value(i);
    lemma_double_bits_of_int_value(i as int);
}

/// Class flag of DOM classes (the engine's `JSCLASS_IS_DOMJSCLASS`, bit 4).
pub const JSCLASS_IS_DOMJSCLASS: u32 = 0x10;

/// The parts of a class that this library reads: its name and its flags.
pub struct JSClass {
    pub name: &'static str,
    pub flags: u32,
}

/// The parts of an entry of a method table that tell the closing entry
/// apart: the addresses of its names (0 for none), whether its native and
/// the native's info are zero, its argument count and its flags.
pub struct JSFunctionSpec {
    pub name: u64,
    pub call_is_zeroed: bool,
    pub nargs: u16,
    pub flags: u16,
    pub selfHostedName: u64,
}

/// Whether a method table entry is all zero, as the closing entry is.
pub open spec fn method_is_zeroed(m: JSFunctionSpec) -> bool {
    m.name == 0 && m.call_is_zeroed && m.nargs == 0 && m.flags == 0 && m.selfHostedName == 0
}

/// Whether a method table ends with a zeroed entry, as the engine needs of
/// the tables it is given.
pub fn methods_are_terminated(methods: &[JSFunctionSpec]) -> (r: bool)
    ensures
        r == (methods@.len() > 0 && method_is_zeroed(methods@.last())),
{
    if methods.len() == 0 {
        false
    } else {
        let last = &methods[methods.len() - 1];
        last.name == 0 && last.call_is_zeroed && last.nargs == 0 && last.flags == 0
            && last.selfHostedName == 0
    }
}

/// Whether a property table, each entry read as its six machine words, ends
/// with an entry whose words are all zero.
pub fn properties_are_terminated(properties: &[[u64; 6]]) -> (r: bool)
    ensures
        r == (properties@.len() > 0 && forall|k: int|
            0 <= k < 6 ==> #[trigger] properties@.last()@[k] == 0),
{
    if properties.len() == 0 {
        return false;
    }
    let last = &properties[properties.len() - 1];
    let mut k: usize = 0;
    while k < 6
        invariant
            k <= 6,
            *last == properties@.last(),
            forall|j: int| 0 <= j < k ==> last@[j] == 0,
        decreases 6 - k,
    {
        if last[k] != 0 {
            return false;
        }
        k = k + 1;
    }
    true
}

/// Whether `class` is a DOM class.
pub fn is_dom_class(class: &JSClass) -> (r: bool)
    ensures
        r == (class.flags & JSCLASS_IS_DOMJSCLASS != 0),
        r == ((class.flags / 0x10) % 2 == 1),
{
    let flags = class.flags;
    assert((flags & 0x10u32 != 0) == ((flags / 0x10) % 2 == 1)) by (bit_vector);
    class.flags & JSCLASS_IS_DOMJSCLASS != 0
}

/// The simple class for global objects, primarily intended for tests: named
/// "Global", global, with the global slot count (modulo 256) reserved.
pub fn SIMPLE_GLOBAL_CLASS(proto_limit: u32) -> (r: JSClass)
    requires
        global_slot_count(proto_limit) <= u32::MAX,
    ensures
        r.name@ == "Global"@,
        r.flags == JSCLASS_IS_GLOBAL + (global_slot_count(proto_limit) % 0x100) * 0x100,
{
    let count = JSCLASS_GLOBAL_SLOT_COUNT(proto_limit);
    let slots = JSCLASS_HAS_RESERVED_SLOTS(count);
    assert(0x2_0000u32 | slots == 0x2_0000u32 + slots) by (bit_vector)
        requires slots < 0x1_0000;
    JSClass { name: "Global", flags: JSCLASS_IS_GLOBAL | slots }
}

/// The default native stack quota: effectively 1MB on 64-bit platforms.
pub const STACK_QUOTA: usize = 128 * 8 * 1024;

/// Stack kept between system code and trusted script.
pub const SYSTEM_CODE_BUFFER: usize = 10 * 1024;

/// Stack kept between trusted and untrusted script.
pub const TRUSTED_SCRIPT_BUFFER: usize = 8 * 12800;

pub const ChunkShift: usize = 20;

/// `1 << ChunkShift`.
pub const ChunkSize: usize = 0x10_0000;

/// The native stack quotas for system code, trusted script and untrusted
/// script that a new context gets.
pub fn stack_quotas() -> (r: (usize, usize, usize))
    ensures
        r.0 == STACK_QUOTA,
        r.1 == STACK_QUOTA - SYSTEM_CODE_BUFFER,
        r.2 == STACK_QUOTA - SYSTEM_CODE_BUFFER - TRUSTED_SCRIPT_BUFFER,
        r.0 > r.1 > r.2 > 0,
{
    (
        STACK_QUOTA,
        STACK_QUOTA - SYSTEM_CODE_BUFFER,
        STACK_QUOTA - SYSTEM_CODE_BUFFER - TRUSTED_SCRIPT_BUFFER,
    )
}

/// What creating a runtime has to do, as decided by `EngineState::begin_runtime`.
#[derive(PartialEq, Eq, Clone, Copy, Structural, Debug)]
pub enum NewRuntimeStep {
    /// The engine has been shut down; no runtime can be created any more.
    Refused,
    /// This is the first runtime: initialize the engine and create a context
    /// without a parent, then record its runtime as the parent.
    InitEngine,
    /// Create a context whose parent is this runtime.
    WithParent(u64),
}

/// The process-wide state of the engine: whether it has been shut down, how
/// many runtimes are alive, and the parent runtime (0 when none).
pub struct EngineState {
    pub shut_down: bool,
    pub outstanding: usize,
    pub parent: u64,
}

impl EngineState {
    /// The states the operations keep: a shut down engine has no runtimes and
    /// no parent, and a recorded parent belongs to a live runtime.
    pub open spec fn wf(&self) -> bool {
        &&& self.shut_down ==> self.outstanding == 0 && self.parent == 0
        &&& self.parent != 0 ==> self.outstanding > 0
    }

    /// The state after `begin_runtime`.
    pub open spec fn begun(self) -> EngineState {
        if self.shut_down {
            self
        } else {
            EngineState { outstanding: (self.outstanding + 1) as usize, ..self }
        }
    }

    /// What `begin_runtime` answers.
    pub open spec fn begin_step(self) -> NewRuntimeStep {
        if self.shut_down {
            NewRuntimeStep::Refused
        } else if self.outstanding == 0 {
            NewRuntimeStep::InitEngine
        } else {
            NewRuntimeStep::WithParent(self.parent)
        }
    }

    /// The state after `record_parent(parent)`.
    pub open spec fn with_parent(self, parent: u64) -> EngineState {
        EngineState { parent, ..self }
    }

    /// The state after `end_runtime`.
    pub open spec fn ended(self) -> EngineState {
        if self.outstanding == 1 {
            EngineState { shut_down: true, outstanding: 0, parent: 0 }
        } else {
            EngineState { outstanding: (self.outstanding - 1) as usize, ..self }
        }
    }

    /// The state before any runtime exists.
    pub fn new() -> (r: EngineState)
        ensures
            r.wf(),
            !r.shut_down,
            r.outstanding == 0,
            r.parent == 0,
    {
        EngineState { shut_down: false, outstanding: 0, parent: 0 }
    }

    /// Starts creating a runtime: refused once the engine has shut down;
    /// otherwise counts the new runtime and says whether it is the first.
    pub fn begin_runtime(&mut self) -> (r: NewRuntimeStep)
        requires
            old(self).wf(),
            old(self).outstanding < usize::MAX,
            old(self).outstanding > 0 ==> old(self).parent != 0,
        ensures
            final(self).wf(),
            *final(self) == old(self).begun(),
            r == old(self).begin_step(),
    {
        if self.shut_down {
            return NewRuntimeStep::Refused;
        }
        let outstanding = self.outstanding;
        self.outstanding = outstanding + 1;
        if outstanding == 0 {
            NewRuntimeStep::InitEngine
        } else {
            NewRuntimeStep::WithParent(self.parent)
        }
    }

    /// Records the runtime of the first context as the parent of later ones.
    pub fn record_parent(&mut self, parent: u64)
        requires
            old(self).wf(),
            !old(self).shut_down,
            old(self).outstanding > 0,
            old(self).parent == 0,
            parent != 0,
        ensures
            final(self).wf(),
            *final(self) == old(self).with_parent(parent),
    {
        self.parent = parent;
    }

    /// Counts a runtime as gone. For the last one the parent is forgotten and
    /// the engine is shut down for good; the result says whether that happened.
    pub fn end_runtime(&mut self) -> (r: bool)
        requires
            old(self).wf(),
            old(self).outstanding > 0,
        ensures
            final(self).wf(),
            *final(self) == old(self).ended(),
            r == (old(self).outstanding == 1),
    {
        let outstanding = self.outstanding;
        self.outstanding = outstanding - 1;
        if outstanding == 1 {
            self.parent = 0;
            self.shut_down = true;
            true
        } else {
            false
        }
    }
}

/// The context of the current thread (0 when none), as `Runtime::get` reads
/// it. Only starting and finishing a runtime change it.
pub struct ThreadContext {
    cx: u64,
}

impl ThreadContext {
    /// The thread's context, 0 when it has none.
    pub closed spec fn context(&self) -> u64 {
        self.cx
    }

    /// A thread without a context.
    pub fn new() -> (r: ThreadContext)
        ensures
            r.context() == 0,
    {
        ThreadContext { cx: 0 }
    }

    /// Whether the thread has a context.
    pub fn has_context(&self) -> (r: bool)
        ensures
            r == (self.context() != 0),
    {
        self.cx != 0
    }
}

/// A runtime: the context the engine created for one thread. Its context is
/// never null.
pub struct Runtime {
    cx: u64,
    parent: u64,
}

impl Runtime {
    #[verifier::type_invariant]
    spec fn context_is_set(self) -> bool {
        self.cx != 0 && self.parent != 0
    }

    /// The parent runtime this runtime was created under.
    pub closed spec fn parent_runtime(&self) -> u64 {
        self.parent
    }

    /// The context of this runtime.
    pub closed spec fn context(&self) -> u64 {
        self.cx
    }

    /// The runtime around the context `cx` that the engine created for this
    /// thread, once the parent runtime is known; it becomes the thread's
    /// context. A thread has at most one.
    pub fn start(thread: &mut ThreadContext, engine: &EngineState, cx: u64) -> (r: Runtime)
        requires
            old(thread).context() == 0,
            cx != 0,
            engine.wf(),
            engine.parent != 0,
        ensures
            r.context() == cx,
            r.parent_runtime() == engine.parent,
            final(thread).context() == cx,
    {
        thread.cx = cx;
        Runtime { cx, parent: engine.parent }
    }

    /// Ends this runtime: its thread has no context any more.
    pub fn finish(self, thread: &mut ThreadContext)
        requires
            old(thread).context() == self.context(),
        ensures
            final(thread).context() == 0,
    {
        thread.cx = 0;
    }

    /// The context of the current thread, which must have one: while a
    /// runtime started on the thread is alive, its context.
    pub fn get(thread: &ThreadContext) -> (r: u64)
        requires
            thread.context() != 0,
        ensures
            r == thread.context(),
            r != 0,
    {
        thread.cx
    }

    /// The parent runtime of all contexts: the one recorded for the first,
    /// never null. It stays the engine's parent while any runtime lives
    /// (`lemma_parent_until_last_end`), so every live runtime gives the same.
    pub fn rt(&self) -> (r: u64)
        ensures
            r == self.parent_runtime(),
            r != 0,
    {
        proof {
            use_type_invariant(self);
        }
        self.parent
    }

    /// The context of this runtime; never null.
    pub fn cx(&self) -> (r: u64)
        ensures
            r == self.context(),
            r != 0,
    {
        proof {
            use_type_invariant(self);
        }
        self.cx
    }
}

/// Runtimes over the life of the engine: the first one initializes it, a
/// second one gets the first's runtime as parent, the engine stays up until
/// the last runtime ends, and then creating a runtime is refused.
pub proof fn lemma_runtime_lifecycle(parent: u64)
    requires
        parent != 0,
    ensures
        ({
            let e0 = EngineState { shut_down: false, outstanding: 0, parent: 0 };
            let e1 = e0.begun().with_parent(parent);
            let e2 = e1.begun();
            let e3 = e2.ended();
            let e4 = e3.ended();
            &&& e0.begin_step() == NewRuntimeStep::InitEngine
            &&& e1.begin_step() == NewRuntimeStep::WithParent(parent)
            &&& e2.outstanding == 2
            &&& !e3.shut_down && e3.parent == parent
            &&& e4.shut_down && e4.outstanding == 0
            &&& e4.begin_step() == NewRuntimeStep::Refused
            &&& e4.begun() == e4
        }),
{
}

/// Every state that the operations reach from the fresh state is
/// well-formed: beginning keeps it so, recording a parent for the first
/// runtime does, and ending a live runtime does.
pub proof fn lemma_operations_keep_wf(e: EngineState, parent: u64)
    requires
        e.wf(),
    ensures
        e.outstanding < usize::MAX ==> e.begun().wf(),
        !e.shut_down && e.outstanding > 0 && e.parent == 0 && parent != 0 ==> e.with_parent(
            parent,
        ).wf(),
        e.outstanding > 0 ==> e.ended().wf(),
        e.shut_down ==> e.begin_step() == NewRuntimeStep::Refused && e.begun() == e,
{
}

/// Once recorded, the parent runtime stays the same and non-null while
/// runtimes live: a new runtime gets it as parent and keeps it, and ending a
/// runtime that is not the last keeps it.
pub proof fn lemma_parent_stable(e: EngineState)
    requires
        e.wf(),
        e.parent != 0,
    ensures
        !e.shut_down,
        e.outstanding > 0,
        e.begin_step() == NewRuntimeStep::WithParent(e.parent),
        e.begun().parent == e.parent,
        e.outstanding > 1 ==> e.ended().parent == e.parent && e.ended().outstanding > 0,
{
}

/// A change of the engine's runtime count: a runtime begins or ends.
#[derive(PartialEq, Eq, Clone, Copy, Structural, Debug)]
pub enum EngineOp {
    Begin,
    End,
}

/// The engine state after the operations `ops`, in order.
pub open spec fn apply_ops(e: EngineState, ops: Seq<EngineOp>) -> EngineState
    decreases ops.len(),
{
    if ops.len() == 0 {
        e
    } else {
        let before = apply_ops(e, ops.drop_last());
        match ops.last() {
            EngineOp::Begin => before.begun(),
            EngineOp::End => before.ended(),
        }
    }
}

/// Once recorded, the parent runtime is what every runtime sees until the
/// last one ends: through any runtimes beginning and ending while at least
/// one is alive, the parent stays the same non-null runtime and the engine
/// stays up. A runtime started in state `e` and one started after `ops`
/// therefore report the same parent through `Runtime::rt`, which gives the
/// parent recorded when the runtime started.
pub proof fn lemma_parent_until_last_end(e: EngineState, ops: Seq<EngineOp>)
    requires
        e.wf(),
        e.parent != 0,
        forall|k: int| 0 <= k <= ops.len() ==> #[trigger] apply_ops(e, ops.take(k)).outstanding > 0,
        forall|k: int|
            0 <= k < ops.len() && ops[k] == EngineOp::Begin ==> #[trigger] apply_ops(e, ops.take(k)).outstanding
                < usize::MAX,
    ensures
        apply_ops(e, ops).wf(),
        apply_ops(e, ops).parent == e.parent,
        !apply_ops(e, ops).shut_down,
    decreases ops.len(),
{
    if ops.len() > 0 {
        let n = ops.len() - 1;
        let rest = ops.drop_last();
        assert forall|k: int| 0 <= k <= rest.len() implies #[trigger] apply_ops(e, rest.take(k)).outstanding > 0 by {
            assert(rest.take(k) =~= ops.take(k));
        }
        assert forall|k: int|
            0 <= k < rest.len() && rest[k] == EngineOp::Begin implies #[trigger] apply_ops(e, rest.take(k)).outstanding
                < usize::MAX by {
            assert(rest.take(k) =~= ops.take(k));
        }
        lemma_parent_until_last_end(e, rest);
        assert(ops.take(n) =~= rest);
        assert(ops.take(n + 1) =~= ops);
        assert(apply_ops(e, ops.take(n + 1)).outstanding > 0);
        if ops[n] == EngineOp::Begin {
            assert(apply_ops(e, ops.take(n)).outstanding < usize::MAX);
        }
    } else {
        assert(ops =~= ops.take(0));
    }
}

/// Counting runtimes: beginning one on a live engine counts one more and
/// keeps the parent; ending one that is not the last counts one fewer and
/// keeps the engine up with its parent; ending the last shuts the engine
/// down; and beginning then ending a runtime gives back the state before.
pub proof fn lemma_runtime_count(e: EngineState)
    requires
        e.wf(),
    ensures
        !e.shut_down && e.outstanding < usize::MAX ==> {
            &&& e.begun().outstanding == e.outstanding + 1
            &&& !e.begun().shut_down
            &&& e.begun().parent == e.parent
        },
        e.outstanding > 1 ==> {
            &&& e.ended().outstanding == e.outstanding - 1
            &&& !e.ended().shut_down
            &&& e.ended().parent == e.parent
        },
        e.outstanding == 1 ==> e.ended().shut_down && e.ended().outstanding == 0
            && e.ended().parent == 0,
        !e.shut_down && 0 < e.outstanding < usize::MAX ==> e.begun().ended() == e,
        (e.begin_step() == NewRuntimeStep::Refused) <==> e.shut_down,
        (e.begin_step() == NewRuntimeStep::InitEngine) <==> (!e.shut_down && e.outstanding == 0),
        !e.shut_down && e.outstanding > 0 ==> e.begin_step() == NewRuntimeStep::WithParent(e.parent),
{
}

/// The number of runtimes that `ops` begins.
pub open spec fn begins(ops: Seq<EngineOp>) -> nat
    decreases ops.len(),
{
    if ops.len() == 0 {
        0
    } else {
        begins(ops.drop_last()) + if ops.last() == EngineOp::Begin {
            1nat
        } else {
            0nat
        }
    }
}

/// The number of runtimes that `ops` ends.
pub open spec fn ends(ops: Seq<EngineOp>) -> nat
    decreases ops.len(),
{
    if ops.len() == 0 {
        0
    } else {
        ends(ops.drop_last()) + if ops.last() == EngineOp::End {
            1nat
        } else {
            0nat
        }
    }
}

/// From the fresh engine, after runtimes begin and end so that one at least
/// stays alive after the first begins, the engine is up and counts exactly
/// the runtimes begun and not yet ended.
pub proof fn lemma_runtime_count_ops(ops: Seq<EngineOp>)
    requires
        forall|k: int| 1 <= k <= ops.len() ==> #[trigger] ends(ops.take(k)) < begins(ops.take(k)),
        begins(ops) < usize::MAX,
    ensures
        ({
            let e = apply_ops(EngineState { shut_down: false, outstanding: 0, parent: 0 }, ops);
            &&& !e.shut_down
            &&& e.outstanding == begins(ops) - ends(ops)
        }),
    decreases ops.len(),
{
    let e0 = EngineState { shut_down: false, outstanding: 0, parent: 0 };
    if ops.len() > 0 {
        let n = ops.len() - 1;
        let rest = ops.drop_last();
        assert forall|k: int| 1 <= k <= rest.len() implies #[trigger] ends(rest.take(k)) < begins(
            rest.take(k),
        ) by {
            assert(rest.take(k) =~= ops.take(k));
        }
        assert(begins(ops) >= begins(rest));
        lemma_runtime_count_ops(rest);
        assert(ops.take(n + 1) =~= ops);
        assert(ends(ops.take(n + 1)) < begins(ops.take(n + 1)));
        if n > 0 {
            assert(ops.take(n) =~= rest);
            assert(ends(ops.take(n)) < begins(ops.take(n)));
        }
    }
}

/// A handle: a reference to a rooted value.
#[derive(Clone, Copy)]
pub struct Handle<'a, T: 'a> {
    ptr: &'a T,
}

impl<'a, T> Handle<'a, T> {
    /// The value the handle refers to.
    pub closed spec fn referent(&self) -> T {
        *self.ptr
    }

    /// A copy of the value the handle refers to.
    pub fn get(&self) -> (r: T)
        where
            T: Copy,
        ensures
            r == self.referent(),
    {
        *self.ptr
    }

    /// The handle of `ptr`.
    pub fn new(ptr: &'a T) -> (r: Self)
        ensures
            r.referent() == *ptr,
    {
        Handle { ptr: ptr }
    }
}

/// A mutable handle: a mutable reference to a rooted value.
pub struct MutableHandle<'a, T: 'a> {
    /// The rooted value; what is written through the handle lands there.
    pub ptr: &'a mut T,
}

impl<'a, T> MutableHandle<'a, T> {
    /// The value the handle refers to.
    pub open spec fn referent(&self) -> T {
        *self.ptr
    }

    /// The mutable handle of `ptr`: what is written through it is what
    /// `*ptr` holds once the handle is no longer used.
    pub fn new(ptr: &'a mut T) -> (r: Self)
        ensures
            r.referent() == *old(ptr),
            *final(ptr) == *final(r.ptr),
    {
        MutableHandle { ptr: ptr }
    }

    /// A copy of the value the handle refers to.
    pub fn get(&self) -> (r: T)
        where
            T: Copy,
        ensures
            r == self.referent(),
    {
        *self.ptr
    }

    /// Stores `v` in the value the handle refers to.
    pub fn set(&mut self, v: T)
        where
            T: Copy,
        ensures
            final(self).referent() == v,
            *final(final(self).ptr) == *final(old(self).ptr),
    {
        *self.ptr = v;
    }

    /// A handle to the same value.
    pub fn handle(&self) -> (r: Handle<'_, T>)
        ensures
            r.referent() == self.referent(),
    {
        Handle::new(&*self.ptr)
    }
}

/// Turning the engine's success flag into a `Result`.
pub trait ToResult {
    fn to_result(self) -> Result<(), ()>;
}

impl ToResult for bool {
    /// `Ok` for success, `Err` for failure.
    fn to_result(self) -> (r: Result<(), ()>)
        ensures
            r is Ok <==> self,
    {
        if self {
            Ok(())
        } else {
            Err(())
        }
    }
}

} // verus!
