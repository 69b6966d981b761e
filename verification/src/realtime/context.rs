//! Zero-sized witness for the realtime context.

use vstd::prelude::*;

verus! {

/// Witness that the current call stack originates from the audio
/// engine's realtime thread.
///
/// The framework's `IOProc` harness creates one and passes it to user
/// code by reference; any function safe to call from the realtime
/// path takes `&RealtimeContext`. The `Rc` marker makes the type
/// neither `Send` nor `Sync`, so a witness cannot be carried to
/// another thread.
#[derive(Debug)]
pub struct RealtimeContext {
    _not_send_sync: core::marker::PhantomData<std::rc::Rc<()>>,
}

impl RealtimeContext {
    /// Construct a new realtime witness.
    ///
    /// The caller promises that either the current thread is the
    /// Core Audio realtime thread (the framework's IO harness calls
    /// this exactly there), or it is a test driving the IO path
    /// in-process.
    pub fn new_unchecked() -> (r: Self) {
        RealtimeContext { _not_send_sync: core::marker::PhantomData }
    }
}

} // verus!
