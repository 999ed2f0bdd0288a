//! Exact string building: decimal and uppercase-hexadecimal renderings of
//! integers, specified character by character.

use vstd::prelude::*;

verus! {

/// Relies on `alloc::string::String::push`: appends exactly one character
/// to the end of the string.
pub assume_specification[ String::push ](s: &mut String, ch: char)
    ensures
        final(s)@ == old(s)@.push(ch),
;

/// The ASCII digit for a value below ten.
pub open spec fn spec_digit(d: nat) -> char {
    ((d + 0x30) as u8) as char
}

/// The uppercase ASCII hexadecimal digit for a value below sixteen.
pub open spec fn spec_hex_digit(d: nat) -> char {
    if d < 10 {
        ((d + 0x30) as u8) as char
    } else {
        ((d - 10 + 0x41) as u8) as char
    }
}

/// The decimal rendering of a number, most significant digit first, with
/// no leading zeros (zero itself renders as "0").
pub open spec fn spec_dec(n: nat) -> Seq<char>
    decreases n,
{
    if n < 10 {
        seq![spec_digit(n)]
    } else {
        spec_dec(n / 10).push(spec_digit(n % 10))
    }
}

/// The two-digit uppercase hexadecimal rendering of a byte.
pub open spec fn spec_hex2(b: u8) -> Seq<char> {
    seq![spec_hex_digit((b / 16) as nat), spec_hex_digit((b % 16) as nat)]
}

/// The four-digit uppercase hexadecimal rendering of a 16-bit word.
pub open spec fn spec_hex4(w: u16) -> Seq<char> {
    spec_hex2((w / 256) as u8) + spec_hex2((w % 256) as u8)
}

/// Render a number in decimal.
pub fn fmt_u64(n: u64) -> (r: String)
    ensures
        r@ == spec_dec(n as nat),
    decreases n,
{
    if n < 10 {
        let mut s = String::new();
        s.push(((n as u8) + 0x30) as char);
        proof {
            assert(s@ =~= spec_dec(n as nat));
        }
        s
    } else {
        let mut s = fmt_u64(n / 10);
        s.push((((n % 10) as u8) + 0x30) as char);
        s
    }
}

/// Render a `usize` in decimal.
pub fn fmt_usize(n: usize) -> (r: String)
    ensures
        r@ == spec_dec(n as nat),
    {
    fmt_u64(n as u64)
}

fn hex_digit(d: u8) -> (r: char)
    requires
        d < 16,
    ensures
        r == spec_hex_digit(d as nat),
{
    if d < 10 {
        (d + 0x30) as char
    } else {
        (d - 10 + 0x41) as char
    }
}

/// Render a byte as two uppercase hexadecimal digits.
pub fn fmt_hex2(b: u8) -> (r: String)
    ensures
        r@ == spec_hex2(b),
{
    let mut s = String::new();
    s.push(hex_digit(b / 16));
    s.push(hex_digit(b % 16));
    proof {
        assert(s@ =~= spec_hex2(b));
    }
    s
}

/// Render a 16-bit word as four uppercase hexadecimal digits.
pub fn fmt_hex4(w: u16) -> (r: String)
    ensures
        r@ == spec_hex4(w),
{
    let mut s = fmt_hex2((w / 256) as u8);
    let low = fmt_hex2((w % 256) as u8);
    s.append(low.as_str());
    proof {
        assert(s@ =~= spec_hex4(w));
    }
    s
}

} // verus!
