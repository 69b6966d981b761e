//! Realtime-safe primitives.
//!
//! Everything here is allocation-free and performs no blocking
//! calls, so it may be used from the `IOProc` realtime callback:
//!
//! - [`RealtimeContext`] — a zero-sized witness that the current
//!   call stack originates from the audio engine's realtime thread.
//! - [`Refcount`] — the CFPlugIn `IUnknown` reference counter.
//! - [`State`] / [`StateCell`] — the AudioServerPlugin lifecycle
//!   state machine (`Uninitialized → Initialized → Running`).
//! - [`spsc`] — the index arithmetic of the single-producer /
//!   single-consumer ring that hands data to and from the realtime
//!   thread.

pub mod context;
pub mod refcount;
pub mod spsc;
pub mod state;

pub use context::RealtimeContext;
pub use refcount::Refcount;
pub use state::{State, StateCell, TransitionError};
