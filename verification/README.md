# js

Rust bindings to SpiderMonkey, with the engine-independent logic verified by Verus.

`src/` holds what can be decided without the engine, each function with its contract:

- `jsval`, `jsval_layout`: the NaN-boxed value word of 64-bit targets (two
  generations of type codes), its constructors, kind tests and accessors;
  `number`: the exact IEEE-754 encoding of 32-bit integers.
- `rust`: the inline fast paths of `ToBoolean`, `ToNumber`, the integer
  converters and `ToString`; the bookkeeping of runtimes (`EngineState`,
  `ThreadContext`, and runtimes whose context is never null); handles; the simple global class; the closing entries of
  method and property tables.
- `conversions`: `ToJSValConvertible` / `FromJSValConvertible` as far as a
  value's word decides them, under every `ConversionBehavior`, written through
  mutable handles; sequences converted value by value from an iterable;
  Latin-1 text.
- `wrap`: what a value needs before use in a context's compartment (keep,
  wrap, or outerize a window); `report`: the logged lines of error and
  warning reports.
- `js`, `global`, `jsfriendapi`: class flag packing, global classes, the slot
  lookup of engine objects, the JIT info bitfield.
- `name_pool`, `rt`, `text`, `utf16`, `actor`: NUL-terminated name storage,
  shared runtime handles, decimal text, UTF-16 encoding, and the message
  handling of script actors, with laws over whole message streams;
  `supervisor`: the program that starts the actors, counts the live ones and
  stops when the last is done.

`app/` holds the engine side: the C API declarations, runtime creation and
teardown around `EngineState`, the engine's slow conversion paths and the
float conversions, natives, value wrapping and report logging, owners that
release shared runtimes and contexts, and the message loops of the actors
and of the supervisor.

Run `verus` on `src/lib.rs` to check the proofs; `tests/` exercises the library.
