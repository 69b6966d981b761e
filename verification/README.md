# tympan_aspl

A framework for writing macOS AudioServerPlugins — the user-space audio
drivers that run inside `coreaudiod` — whose logic is verified with Verus.

## Layout

- `src/` — the verified library.
  - `fourcc`, `error`, `object`, `property`, `format`, `stream`, `device`,
    `io` — the Core Audio object model as plain values; `float_bits` holds
    `Float64` values as bit patterns and gives exact integer definitions of
    the comparisons and conversions the framework performs on them.
  - `objects`, `dispatch` — the object tree and the property protocol:
    what every property of every object reads as, its size, whether it is
    settable, and what a write does.
  - `driver`, `realtime` — the `Driver` trait, its lifecycle wrapper, the
    lifecycle state machine, the CFPlugIn reference count, and the index
    arithmetic of the realtime channel.
  - `raw` — the byte-level side of the C ABI: plain mirrors of the HAL's
    structs, little-endian property marshalling, the device ring and
    clock, the decisions of the entry points, and the device runtime.
  - `bundle` — `Info.plist` generation.
- `tests/` — the test suite.
- `app/` — the C-ABI shell: `#[repr(C)]` layouts, the `extern "C"` entry
  points and vtable, the CFPlugIn factory and `plugin_entry!`,
  CoreFoundation strings, the host clock, the floating-point timeline
  arithmetic, and the lock-free channel.
