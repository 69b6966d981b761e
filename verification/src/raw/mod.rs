//! The plain-data side of the AudioServerPlugin C ABI.
//!
//! - [`abi`] — field-for-field mirrors of the C structs the HAL
//!   exchanges with a plug-in.
//! - [`marshal`] — conversions between those mirrors, the HAL's raw
//!   property buffers, and the framework's typed values.
//! - [`ring`] — the device's audio backing store.
//! - [`clock`] — the device's zero-timestamp clock state.
//! - [`entry`] — the decisions the `extern "C"` entry points make
//!   before they touch a raw pointer.

pub mod abi;
pub mod clock;
pub mod entry;
pub mod marshal;
pub mod ring;
pub mod runtime;

use vstd::prelude::*;

verus! {

/// Raw Core Audio object identifier — the C `AudioObjectID`.
pub type RawObjectId = u32;

/// Raw Core Audio result code — the C `OSStatus`.
pub type RawOsStatus = i32;

} // verus!
