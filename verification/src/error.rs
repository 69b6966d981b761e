//! `OSStatus` wrapper and Core Audio error codes.
//!
//! Every Core Audio HAL and AudioServerPlugin entry point returns an
//! `OSStatus` — a signed 32-bit result code where `0`
//! (`kAudioHardwareNoError`) is success and any non-zero value is a
//! failure. Most HAL error codes are themselves four-character codes
//! (`'!obj'`, `'who?'`, …) reinterpreted as `i32`.

use vstd::prelude::*;

use crate::fourcc::{code_text, printable_code, FourCharCode};
use crate::text::{hex_upper, push_char, push_hex_upper, push_signed_decimal, push_str, signed_decimal};

verus! {

/// The diagnostic rendering of a status code: `OsStatus::OK` for
/// success, `OsStatus('xxxx')` for a printable four-character code,
/// and `OsStatus(<signed> / 0x<hex>)` otherwise.
pub open spec fn status_text(v: i32) -> Seq<char> {
    if v == 0 {
        "OsStatus::OK"@
    } else if printable_code(v as u32) {
        "OsStatus("@ + code_text(v as u32) + ")"@
    } else {
        "OsStatus("@ + signed_decimal(v as int) + " / 0x"@ + hex_upper((v as u32) as nat, 8)
            + ")"@
    }
}

/// A Core Audio `OSStatus` result code.
///
/// `0` is success; every other value is a failure. The associated
/// functions named like the HAL constants give the error codes an
/// AudioServerPlugin returns from its property and IO entry points.
#[derive(Copy, Clone, PartialEq, Eq, Hash, Debug, Structural)]
pub struct OsStatus(pub i32);

impl OsStatus {
    /// `kAudioHardwareNoError` — the operation succeeded.
    #[allow(non_snake_case)]
    pub fn OK() -> (r: Self)
        ensures
            r.0 == 0,
    {
        OsStatus(0)
    }

    /// `kAudioHardwareNotRunningError` (`'stop'`) — the operation could not be completed because the hardware is not running.
    #[allow(non_snake_case)]
    pub fn NOT_RUNNING() -> (r: Self)
        ensures
            r.0 == 0x73746F70i32,
    {
        OsStatus(0x73746F70i32)
    }

    /// `kAudioHardwareUnspecifiedError` (`'what'`) — an unspecified, catch-all failure.
    #[allow(non_snake_case)]
    pub fn UNSPECIFIED() -> (r: Self)
        ensures
            r.0 == 0x77686174i32,
    {
        OsStatus(0x77686174i32)
    }

    /// `kAudioHardwareUnknownPropertyError` (`'who?'`) — the object does not recognise the requested property.
    #[allow(non_snake_case)]
    pub fn UNKNOWN_PROPERTY() -> (r: Self)
        ensures
            r.0 == 0x77686F3Fi32,
    {
        OsStatus(0x77686F3Fi32)
    }

    /// `kAudioHardwareBadPropertySizeError` (`'!siz'`) — the buffer supplied for a property value is the wrong size.
    #[allow(non_snake_case)]
    pub fn BAD_PROPERTY_SIZE() -> (r: Self)
        ensures
            r.0 == 0x2173697Ai32,
    {
        OsStatus(0x2173697Ai32)
    }

    /// `kAudioHardwareIllegalOperationError` (`'nope'`) — the operation is not legal in the object's current state.
    #[allow(non_snake_case)]
    pub fn ILLEGAL_OPERATION() -> (r: Self)
        ensures
            r.0 == 0x6E6F7065i32,
    {
        OsStatus(0x6E6F7065i32)
    }

    /// `kAudioHardwareBadObjectError` (`'!obj'`) — the `AudioObjectID` does not map to a known object.
    #[allow(non_snake_case)]
    pub fn BAD_OBJECT() -> (r: Self)
        ensures
            r.0 == 0x216F626Ai32,
    {
        OsStatus(0x216F626Ai32)
    }

    /// `kAudioHardwareBadDeviceError` (`'!dev'`) — the `AudioObjectID` is not a device.
    #[allow(non_snake_case)]
    pub fn BAD_DEVICE() -> (r: Self)
        ensures
            r.0 == 0x21646576i32,
    {
        OsStatus(0x21646576i32)
    }

    /// `kAudioHardwareBadStreamError` (`'!str'`) — the `AudioObjectID` is not a stream.
    #[allow(non_snake_case)]
    pub fn BAD_STREAM() -> (r: Self)
        ensures
            r.0 == 0x21737472i32,
    {
        OsStatus(0x21737472i32)
    }

    /// `kAudioHardwareUnsupportedOperationError` (`'unop'`) — the object does not support the requested operation.
    #[allow(non_snake_case)]
    pub fn UNSUPPORTED_OPERATION() -> (r: Self)
        ensures
            r.0 == 0x756E6F70i32,
    {
        OsStatus(0x756E6F70i32)
    }

    /// `kAudioHardwareNotReadyError` (`'nrdy'`) — the object is not ready to perform the operation yet.
    #[allow(non_snake_case)]
    pub fn NOT_READY() -> (r: Self)
        ensures
            r.0 == 0x6E726479i32,
    {
        OsStatus(0x6E726479i32)
    }

    /// `kAudioDeviceUnsupportedFormatError` (`'!dat'`) — the device does not support the requested stream format.
    #[allow(non_snake_case)]
    pub fn UNSUPPORTED_FORMAT() -> (r: Self)
        ensures
            r.0 == 0x21646174i32,
    {
        OsStatus(0x21646174i32)
    }

    /// `kAudioDevicePermissionsError` (`'!hog'`) — the device cannot be used because another process holds it exclusively.
    #[allow(non_snake_case)]
    pub fn PERMISSIONS() -> (r: Self)
        ensures
            r.0 == 0x21686F67i32,
    {
        OsStatus(0x21686F67i32)
    }

    /// Reinterpret a [`FourCharCode`] as an `OsStatus`: the code's
    /// 32 bits read as a signed integer.
    pub fn from_fourcc(code: FourCharCode) -> (r: Self)
        ensures
            r.0 == code.0 as i32,
    {
        OsStatus(code.as_u32() as i32)
    }

    /// The raw `i32`, ready for an `extern "C"` return position.
    pub fn as_i32(self) -> (r: i32)
        ensures
            r == self.0,
    {
        self.0
    }

    /// `true` iff this is success (`0`).
    pub fn is_ok(self) -> (r: bool)
        ensures
            r == (self.0 == 0),
    {
        self.0 == 0
    }

    /// `true` iff this is any value other than success.
    pub fn is_err(self) -> (r: bool)
        ensures
            r == (self.0 != 0),
    {
        self.0 != 0
    }

    /// Convert to a `Result<(), Self>`: success maps to `Ok(())`,
    /// every other code to `Err(self)`.
    pub fn ok(self) -> (r: Result<(), Self>)
        ensures
            r == status_result(self),
    {
        if self.is_ok() {
            Ok(())
        } else {
            Err(self)
        }
    }

    /// The diagnostic rendering of this status (see [`status_text`]).
    pub fn to_debug_string(self) -> (r: String)
        ensures
            r@ == status_text(self.0),
    {
        let mut s = String::new();
        if self.is_ok() {
            push_str(&mut s, "OsStatus::OK");
            return s;
        }
        let code = FourCharCode::from_u32(self.0 as u32);
        if code.is_printable() {
            push_str(&mut s, "OsStatus(");
            let d = code.to_display_string();
            push_str(&mut s, d.as_str());
            push_str(&mut s, ")");
        } else {
            push_str(&mut s, "OsStatus(");
            push_signed_decimal(&mut s, self.0);
            push_str(&mut s, " / 0x");
            push_hex_upper(&mut s, self.0 as u32, 8);
            push_str(&mut s, ")");
        }
        s
    }

    /// The display rendering, identical to the diagnostic one.
    pub fn to_display_string(self) -> (r: String)
        ensures
            r@ == status_text(self.0),
    {
        self.to_debug_string()
    }
}

impl From<i32> for OsStatus {
    fn from(value: i32) -> (r: Self) {
        OsStatus(value)
    }
}

impl vstd::std_specs::convert::FromSpecImpl<i32> for OsStatus {
    open spec fn obeys_from_spec() -> bool {
        true
    }

    open spec fn from_spec(value: i32) -> Self {
        OsStatus(value)
    }
}

impl From<OsStatus> for i32 {
    fn from(value: OsStatus) -> (r: Self) {
        value.0
    }
}

impl vstd::std_specs::convert::FromSpecImpl<OsStatus> for i32 {
    open spec fn obeys_from_spec() -> bool {
        true
    }

    open spec fn from_spec(value: OsStatus) -> Self {
        value.0
    }
}

/// A status split into a `Result`: `Ok(())` for success, the status
/// itself as the error otherwise.
pub open spec fn status_result(status: OsStatus) -> Result<(), OsStatus> {
    if status.0 == 0 {
        Ok(())
    } else {
        Err(status)
    }
}

/// The status an entry point returns for a `Result`: success for
/// `Ok(())`, the error itself otherwise.
pub open spec fn flatten_result(value: Result<(), OsStatus>) -> OsStatus {
    match value {
        Ok(()) => OsStatus(0),
        Err(status) => status,
    }
}

impl From<Result<(), OsStatus>> for OsStatus {
    /// Flatten a `Result` back into a raw status for the FFI return
    /// position: `Ok(())` becomes success, `Err(s)` becomes `s`.
    fn from(value: Result<(), OsStatus>) -> (r: Self) {
        match value {
            Ok(()) => OsStatus(0),
            Err(status) => status,
        }
    }
}

impl vstd::std_specs::convert::FromSpecImpl<Result<(), OsStatus>> for OsStatus {
    open spec fn obeys_from_spec() -> bool {
        true
    }

    open spec fn from_spec(value: Result<(), OsStatus>) -> Self {
        flatten_result(value)
    }
}

/// Flattening a `Result` and splitting the status again gives the
/// same `Result`.
pub proof fn lemma_flatten_ok_round_trip(value: Result<(), OsStatus>)
    requires
        value matches Err(e) ==> e.0 != 0,
    ensures
        status_result(flatten_result(value)) == value,
{
    match value {
        Ok(u) => {
            assert(u == ());
        },
        Err(e) => {},
    }
}

/// Splitting a status into a `Result` with [`OsStatus::ok`] and
/// flattening it back gives the same status.
pub proof fn lemma_ok_flatten_round_trip(status: OsStatus)
    ensures
        flatten_result(status_result(status)) == status,
{
}

} // verus!
