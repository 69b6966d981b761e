//! Four-character codes.
//!
//! Core Audio identifies selectors, scopes, format IDs, error codes,
//! and transport types with *four-character codes* — a `u32` whose
//! four bytes are printable ASCII, written in the C headers as
//! multi-character literals such as `'glob'` or `'lpcm'`. The bytes
//! are stored most-significant-first, so `'glob'` is `0x676C6F62`.

use vstd::prelude::*;

use crate::text::{hex_upper, push_char, push_hex_upper, push_str};

verus! {

/// The `u32` whose big-endian bytes are `b[0..4]`.
pub open spec fn be_u32(b: Seq<u8>) -> nat {
    b[0] as nat * 16777216 + b[1] as nat * 65536 + b[2] as nat * 256 + b[3] as nat
}

/// The four bytes of `v`, most significant first.
pub open spec fn be_bytes(v: u32) -> Seq<u8> {
    seq![
        (v / 16777216) as u8,
        ((v / 65536) % 256) as u8,
        ((v / 256) % 256) as u8,
        (v % 256) as u8,
    ]
}

/// `true` iff `b` lies in the printable ASCII range `0x20..=0x7E`.
pub open spec fn printable_byte(b: u8) -> bool {
    0x20 <= b && b <= 0x7E
}

/// `true` iff every byte of `v` is printable ASCII.
pub open spec fn printable_code(v: u32) -> bool {
    forall|i: int| 0 <= i < 4 ==> printable_byte(#[trigger] be_bytes(v)[i])
}

/// The rendering of a code: the quoted four-character form when
/// every byte is printable, otherwise `0x` and eight upper-case hex
/// digits.
pub open spec fn code_text(v: u32) -> Seq<char> {
    if printable_code(v) {
        let b = be_bytes(v);
        seq!['\'', b[0] as char, b[1] as char, b[2] as char, b[3] as char, '\'']
    } else {
        seq!['0', 'x'] + hex_upper(v as nat, 8)
    }
}

/// A Core Audio four-character code.
///
/// Construct one from a 4-byte ASCII literal with
/// [`FourCharCode::new`], or from a raw `u32` with
/// [`FourCharCode::from_u32`].
#[derive(Copy, Clone, PartialEq, Eq, Hash, PartialOrd, Ord, Debug, Structural)]
pub struct FourCharCode(pub u32);

impl FourCharCode {
    /// The all-zero code. Core Audio uses this as a "wildcard" or
    /// "unset" sentinel in several property addresses.
    #[allow(non_snake_case)]
    pub fn ZERO() -> (r: Self)
        ensures
            r.0 == 0,
    {
        FourCharCode(0)
    }

    /// Build a code from four bytes, most-significant byte first.
    pub fn new(bytes: [u8; 4]) -> (r: Self)
        ensures
            r.0 == be_u32(bytes@),
    {
        FourCharCode(
            (bytes[0] as u32) * 16777216 + (bytes[1] as u32) * 65536 + (bytes[2] as u32) * 256
                + (bytes[3] as u32),
        )
    }

    /// Build a code from a raw `u32`. Inverse of [`Self::as_u32`].
    pub fn from_u32(value: u32) -> (r: Self)
        ensures
            r.0 == value,
    {
        FourCharCode(value)
    }

    /// The raw `u32` value, ready for the FFI boundary.
    pub fn as_u32(self) -> (r: u32)
        ensures
            r == self.0,
    {
        self.0
    }

    /// The four bytes, most-significant first.
    pub fn to_bytes(self) -> (r: [u8; 4])
        ensures
            r@ == be_bytes(self.0),
    {
        let v = self.0;
        let r: [u8; 4] = [
            (v / 16777216) as u8,
            ((v / 65536) % 256) as u8,
            ((v / 256) % 256) as u8,
            (v % 256) as u8,
        ];
        assert(r@ =~= be_bytes(v));
        r
    }

    /// `true` iff every byte of the code is printable ASCII
    /// (`0x20..=0x7E`). This only governs whether the rendering
    /// is the quoted form or the hexadecimal fallback.
    pub fn is_printable(self) -> (r: bool)
        ensures
            r == printable_code(self.0),
    {
        let b = self.to_bytes();
        let mut i: usize = 0;
        while i < 4
            invariant
                i <= 4,
                b@ == be_bytes(self.0),
                forall|j: int| 0 <= j < i ==> printable_byte(#[trigger] be_bytes(self.0)[j]),
            decreases 4 - i,
        {
            if b[i] < 0x20 || b[i] > 0x7E {
                assert(!printable_byte(be_bytes(self.0)[i as int]));
                return false;
            }
            i += 1;
        }
        true
    }

    /// The human-readable rendering: `'glob'` when every byte is
    /// printable ASCII, `0x........` (upper-case hex) otherwise.
    pub fn to_display_string(self) -> (r: String)
        ensures
            r@ == code_text(self.0),
    {
        let mut s = String::new();
        if self.is_printable() {
            let b = self.to_bytes();
            push_char(&mut s, '\'');
            push_char(&mut s, b[0] as char);
            push_char(&mut s, b[1] as char);
            push_char(&mut s, b[2] as char);
            push_char(&mut s, b[3] as char);
            push_char(&mut s, '\'');
            assert(s@ =~= code_text(self.0));
        } else {
            push_char(&mut s, '0');
            push_char(&mut s, 'x');
            push_hex_upper(&mut s, self.0, 8);
            assert(s@ =~= code_text(self.0));
        }
        s
    }

    /// The diagnostic rendering: `FourCharCode(` + the display form
    /// + `)`.
    pub fn to_debug_string(self) -> (r: String)
        ensures
            r@ == "FourCharCode("@ + code_text(self.0) + ")"@,
    {
        let mut s = String::new();
        push_str(&mut s, "FourCharCode(");
        let d = self.to_display_string();
        push_str(&mut s, d.as_str());
        push_str(&mut s, ")");
        s
    }
}

impl From<u32> for FourCharCode {
    fn from(value: u32) -> (r: Self) {
        FourCharCode(value)
    }
}

impl vstd::std_specs::convert::FromSpecImpl<u32> for FourCharCode {
    open spec fn obeys_from_spec() -> bool {
        true
    }

    open spec fn from_spec(value: u32) -> Self {
        FourCharCode(value)
    }
}

impl From<FourCharCode> for u32 {
    fn from(value: FourCharCode) -> (r: Self) {
        value.0
    }
}

impl vstd::std_specs::convert::FromSpecImpl<FourCharCode> for u32 {
    open spec fn obeys_from_spec() -> bool {
        true
    }

    open spec fn from_spec(value: FourCharCode) -> Self {
        value.0
    }
}

impl From<[u8; 4]> for FourCharCode {
    fn from(bytes: [u8; 4]) -> (r: Self) {
        FourCharCode::new(bytes)
    }
}

impl vstd::std_specs::convert::FromSpecImpl<[u8; 4]> for FourCharCode {
    open spec fn obeys_from_spec() -> bool {
        true
    }

    open spec fn from_spec(bytes: [u8; 4]) -> Self {
        FourCharCode(be_u32(bytes@) as u32)
    }
}

/// Packing four bytes and unpacking them again gives the bytes back.
pub proof fn lemma_bytes_round_trip(b: Seq<u8>)
    requires
        b.len() == 4,
    ensures
        be_u32(b) <= u32::MAX,
        be_bytes(be_u32(b) as u32) == b,
{
    let v = be_u32(b);
    assert(v <= u32::MAX);
    let w = v as u32;
    assert(w / 16777216 == b[0]);
    assert((w / 65536) % 256 == b[1]);
    assert((w / 256) % 256 == b[2]);
    assert(w % 256 == b[3]);
    assert(be_bytes(w) =~= b);
}

/// Unpacking a code into bytes and packing them again gives the code
/// back.
pub proof fn lemma_code_round_trip(v: u32)
    ensures
        be_u32(be_bytes(v)) == v,
{
    let b = be_bytes(v);
    assert(b[0] as nat * 16777216 + b[1] as nat * 65536 + b[2] as nat * 256 + b[3] as nat
        == v);
}

} // verus!
