//! Character-level rendering helpers shared by the human-readable
//! renderings of four-character codes and status codes.

use vstd::prelude::*;

verus! {

/// Append one character to a `String` (`String::push`).
///
/// Trusted: std documents that `push` appends the character to the
/// end of the string; this states exactly that over the string's
/// character view.
#[verifier::external_body]
pub fn push_char(s: &mut String, c: char)
    ensures
        final(s)@ == old(s)@.push(c),
{
    s.push(c);
}

/// Append a string slice to a `String`.
pub fn push_str(s: &mut String, t: &str)
    ensures
        final(s)@ == old(s)@ + t@,
{
    s.append(t);
}

/// The upper-case hexadecimal digit for `d` (`0 <= d < 16`).
pub open spec fn hex_digit(d: nat) -> char {
    if d < 10 {
        ((d + 48) as u8) as char
    } else {
        ((d - 10 + 65) as u8) as char
    }
}

/// The decimal digit for `d` (`0 <= d < 10`).
pub open spec fn dec_digit(d: nat) -> char {
    ((d + 48) as u8) as char
}

/// The low `n` hexadecimal digits of `v`, most significant first,
/// zero-padded.
pub open spec fn hex_upper(v: nat, n: nat) -> Seq<char>
    decreases n,
{
    if n == 0 {
        Seq::empty()
    } else {
        hex_upper(v / 16, (n - 1) as nat).push(hex_digit(v % 16))
    }
}

/// The decimal rendering of `v`, without leading zeros.
pub open spec fn decimal(v: nat) -> Seq<char>
    decreases v,
{
    if v < 10 {
        seq![dec_digit(v)]
    } else {
        decimal(v / 10).push(dec_digit(v % 10))
    }
}

/// The decimal rendering of a signed value: a `-` sign for negative
/// values, then the magnitude.
pub open spec fn signed_decimal(v: int) -> Seq<char> {
    if v < 0 {
        seq!['-'] + decimal((-v) as nat)
    } else {
        decimal(v as nat)
    }
}

fn hex_digit_char(d: u32) -> (c: char)
    requires
        d < 16,
    ensures
        c == hex_digit(d as nat),
{
    if d < 10 {
        ((d + 48) as u8) as char
    } else {
        ((d - 10 + 65) as u8) as char
    }
}

/// Append the low `n` upper-case hexadecimal digits of `v`.
pub fn push_hex_upper(s: &mut String, v: u32, n: u32)
    requires
        n <= 8,
    ensures
        final(s)@ == old(s)@ + hex_upper(v as nat, n as nat),
    decreases n,
{
    if n == 0 {
        assert(old(s)@ + hex_upper(v as nat, 0) =~= old(s)@);
    } else {
        push_hex_upper(s, v / 16, n - 1);
        push_char(s, hex_digit_char(v % 16));
        assert(old(s)@ + hex_upper(v as nat, n as nat) =~= old(s)@ + hex_upper(
            (v / 16) as nat,
            (n - 1) as nat,
        ) + seq![hex_digit((v % 16) as nat)]);
    }
}

/// Append the decimal rendering of `v`.
pub fn push_decimal(s: &mut String, v: u32)
    ensures
        final(s)@ == old(s)@ + decimal(v as nat),
    decreases v,
{
    if v >= 10 {
        push_decimal(s, v / 10);
    }
    push_char(s, ((v % 10 + 48) as u8) as char);
    if v >= 10 {
        assert(old(s)@ + decimal(v as nat) =~= old(s)@ + decimal((v / 10) as nat) + seq![
            dec_digit((v % 10) as nat),
        ]);
    } else {
        assert(old(s)@ + decimal(v as nat) =~= old(s)@.push(dec_digit(v as nat)));
    }
}

/// Append the decimal rendering of a signed value.
pub fn push_signed_decimal(s: &mut String, v: i32)
    ensures
        final(s)@ == old(s)@ + signed_decimal(v as int),
{
    if v < 0 {
        push_char(s, '-');
        let magnitude: u32 = if v == i32::MIN {
            2147483648u32
        } else {
            (-v) as u32
        };
        push_decimal(s, magnitude);
        assert(old(s)@ + signed_decimal(v as int) =~= old(s)@.push('-') + decimal(
            magnitude as nat,
        ));
    } else {
        push_decimal(s, v as u32);
    }
}

} // verus!
