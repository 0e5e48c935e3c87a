//! Hexadecimal text for byte arrays.
//!
//! A byte array formats as two hexadecimal digits per byte, high nibble
//! first, in lower or upper case, honouring an optional maximum number of
//! digits. Small arrays are encoded by a verified digit-by-digit loop; the
//! full text of larger arrays comes from the `faster_hex` crate, whose
//! output is stated against the same specification.

use vstd::prelude::*;

use crate::GenericArray;

verus! {

/// The character for one hexadecimal digit, `v < 16`.
pub open spec fn nibble_char(v: u8, upper: bool) -> char {
    if v < 10 {
        ((v + 0x30) as u8) as char
    } else if upper {
        ((v + 0x37) as u8) as char
    } else {
        ((v + 0x57) as u8) as char
    }
}

/// The hexadecimal text of a byte sequence: two digits per byte in order,
/// high nibble first.
pub open spec fn hex_chars(bytes: Seq<u8>, upper: bool) -> Seq<char> {
    Seq::new(
        bytes.len() * 2,
        |i: int|
            nibble_char(
                if i % 2 == 0 {
                    bytes[i / 2] / 16
                } else {
                    bytes[i / 2] % 16
                },
                upper,
            ),
    )
}

/// Relies on `String::push` of std: appends one character at the end of
/// the string.
#[verifier::external_body]
fn push_char(s: &mut String, c: char)
    ensures
        (*final(s))@ == old(s)@.push(c),
{
    s.push(c);
}

/// Relies on `faster_hex::hex_string`: each byte of `src` becomes two
/// lowercase hexadecimal digits, high nibble first, in order, with leading
/// zeroes kept.
#[verifier::external_body]
fn hex_string_lower(src: &[u8]) -> (r: String)
    requires
        src@.len() * 2 <= usize::MAX,
    ensures
        r@ == hex_chars(src@, false),
{
    faster_hex::hex_string(src)
}

/// Relies on `faster_hex::hex_string_upper`: each byte of `src` becomes two
/// uppercase hexadecimal digits, high nibble first, in order, with leading
/// zeroes kept.
#[verifier::external_body]
fn hex_string_upper(src: &[u8]) -> (r: String)
    requires
        src@.len() * 2 <= usize::MAX,
    ensures
        r@ == hex_chars(src@, true),
{
    faster_hex::hex_string_upper(src)
}

/// The character for one hexadecimal digit, `v < 16`.
fn nibble_to_char(v: u8, upper: bool) -> (c: char)
    requires
        v < 16,
    ensures
        c == nibble_char(v, upper),
{
    if v < 10 {
        (v + 0x30) as char
    } else if upper {
        (v + 0x37) as char
    } else {
        (v + 0x57) as char
    }
}

/// Encodes `bytes` digit by digit, stopping after `limit` digits: the
/// result is the first `min(limit, 2 * len)` characters of the full
/// hexadecimal text.
fn hex_digits(bytes: &[u8], upper: bool, limit: usize) -> (r: String)
    requires
        bytes@.len() * 2 <= usize::MAX,
    ensures
        r@ == hex_chars(bytes@, upper).take(
            vstd::math::min(limit as int, 2 * bytes@.len() as int),
        ),
{
    let total = bytes.len() * 2;
    let digits = if limit < total {
        limit
    } else {
        total
    };
    let mut out = String::new();
    proof {
        assert(out@ =~= hex_chars(bytes@, upper).take(0));
    }
    for i in 0..digits
        invariant
            total == bytes@.len() * 2,
            total <= usize::MAX,
            digits == vstd::math::min(limit as int, total as int),
            out@ == hex_chars(bytes@, upper).take(i as int),
        decreases digits - i,
    {
        let b = bytes[i / 2];
        let nib = if i % 2 == 0 {
            b / 16
        } else {
            b % 16
        };
        let c = nibble_to_char(nib, upper);
        push_char(&mut out, c);
        proof {
            assert(out@ =~= hex_chars(bytes@, upper).take(i as int + 1));
        }
    }
    out
}

impl<const N: usize> GenericArray<u8, N> {
    /// The full lowercase hexadecimal text of the array: two digits per
    /// byte, high nibble first, leading zeroes kept.
    pub fn lower_hex(&self) -> (r: String)
        requires
            N * 2 <= usize::MAX,
        ensures
            r@ == hex_chars(self@, false),
    {
        let slice = self.as_slice();
        if N < 16 {
            let r = hex_digits(slice, false, N * 2);
            proof {
                assert(hex_chars(self@, false).take(2 * N as int) =~= hex_chars(self@, false));
            }
            r
        } else {
            hex_string_lower(slice)
        }
    }

    /// The full uppercase hexadecimal text of the array.
    pub fn upper_hex(&self) -> (r: String)
        requires
            N * 2 <= usize::MAX,
        ensures
            r@ == hex_chars(self@, true),
    {
        let slice = self.as_slice();
        if N < 16 {
            let r = hex_digits(slice, true, N * 2);
            proof {
                assert(hex_chars(self@, true).take(2 * N as int) =~= hex_chars(self@, true));
            }
            r
        } else {
            hex_string_upper(slice)
        }
    }

    /// The first `precision` digits of the lowercase hexadecimal text, or
    /// the whole text when `precision` exceeds its length.
    pub fn lower_hex_precision(&self, precision: usize) -> (r: String)
        requires
            N * 2 <= usize::MAX,
        ensures
            r@ == hex_chars(self@, false).take(vstd::math::min(precision as int, 2 * N as int)),
    {
        hex_digits(self.as_slice(), false, precision)
    }

    /// The first `precision` digits of the uppercase hexadecimal text, or
    /// the whole text when `precision` exceeds its length.
    pub fn upper_hex_precision(&self, precision: usize) -> (r: String)
        requires
            N * 2 <= usize::MAX,
        ensures
            r@ == hex_chars(self@, true).take(vstd::math::min(precision as int, 2 * N as int)),
    {
        hex_digits(self.as_slice(), true, precision)
    }
}

} // verus!
