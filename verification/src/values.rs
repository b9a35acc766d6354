//! Conversions between the signed values that appear in decoded instructions
//! and the 16-bit bit patterns that the machine state stores, together with
//! the byte-level helpers used by both the decoder and the execution engine.

use vstd::prelude::*;

verus! {

/// The unsigned 16-bit pattern that encodes a signed 16-bit value
/// in two's complement.
pub open spec fn to_bits16(v: i16) -> u16 {
    if v >= 0 {
        v as u16
    } else {
        (v + 0x10000) as u16
    }
}

/// The signed 16-bit value that a 16-bit pattern encodes in two's complement.
pub open spec fn to_signed16(v: u16) -> i16 {
    if v < 0x8000 {
        v as i16
    } else {
        (v - 0x10000) as i16
    }
}

/// The unsigned byte that encodes a signed byte in two's complement.
pub open spec fn to_bits8(v: i8) -> u8 {
    if v >= 0 {
        v as u8
    } else {
        (v + 0x100) as u8
    }
}

/// The signed byte that a byte pattern encodes in two's complement.
pub open spec fn to_signed8(v: u8) -> i8 {
    if v < 0x80 {
        v as i8
    } else {
        (v - 0x100) as i8
    }
}

/// A byte widened to 16 bits by sign extension.
pub open spec fn sign_extend8(b: u8) -> u16 {
    if b < 0x80 {
        b as u16
    } else {
        (b + 0xFF00) as u16
    }
}

/// The 16-bit word stored little-endian as a low and a high byte.
pub open spec fn word_from(lo: u8, hi: u8) -> u16 {
    (hi * 0x100 + lo) as u16
}

/// The low byte of a 16-bit word.
pub open spec fn low_byte(v: u16) -> u8 {
    (v % 0x100) as u8
}

/// The high byte of a 16-bit word.
pub open spec fn high_byte(v: u16) -> u8 {
    (v / 0x100) as u8
}

/// The word with its low byte replaced and its high byte kept.
pub open spec fn with_low_byte(v: u16, b: u8) -> u16 {
    (v / 0x100 * 0x100 + b) as u16
}

/// The word with its high byte replaced and its low byte kept.
pub open spec fn with_high_byte(v: u16, b: u8) -> u16 {
    (b * 0x100 + v % 0x100) as u16
}

/// Converts a 16-bit pattern to the signed value it encodes.
pub fn bits_to_i16(v: u16) -> (r: i16)
    ensures
        r == to_signed16(v),
{
    if v < 0x8000 {
        v as i16
    } else {
        ((v as i32) - 0x10000) as i16
    }
}

/// Converts a signed 16-bit value to its two's-complement pattern.
pub fn i16_to_bits(v: i16) -> (r: u16)
    ensures
        r == to_bits16(v),
{
    if v >= 0 {
        v as u16
    } else {
        ((v as i32) + 0x10000) as u16
    }
}

/// Converts a byte pattern to the signed value it encodes.
pub fn bits_to_i8(v: u8) -> (r: i8)
    ensures
        r == to_signed8(v),
{
    if v < 0x80 {
        v as i8
    } else {
        ((v as i16) - 0x100) as i8
    }
}

/// Converts a signed byte to its two's-complement pattern.
pub fn i8_to_bits(v: i8) -> (r: u8)
    ensures
        r == to_bits8(v),
{
    if v >= 0 {
        v as u8
    } else {
        ((v as i16) + 0x100) as u8
    }
}

/// Builds the 16-bit word stored little-endian as two bytes.
pub fn word_from_bytes(lo: u8, hi: u8) -> (r: u16)
    ensures
        r == word_from(lo, hi),
{
    (hi as u16) * 0x100 + (lo as u16)
}

/// Widens a byte to 16 bits by sign extension.
pub fn sign_extend_byte(b: u8) -> (r: u16)
    ensures
        r == sign_extend8(b),
{
    if b < 0x80 {
        b as u16
    } else {
        (b as u16) + 0xFF00
    }
}

/// Encoding a signed byte and reading it back is the identity, in both
/// directions.
pub proof fn lemma_byte_signed_round_trip(b: u8, v: i8)
    ensures
        to_bits8(to_signed8(b)) == b,
        to_signed8(to_bits8(v)) == v,
{
}

/// Encoding a signed 16-bit value and reading it back is the identity, in
/// both directions.
pub proof fn lemma_word_signed_round_trip(w: u16, v: i16)
    ensures
        to_bits16(to_signed16(w)) == w,
        to_signed16(to_bits16(v)) == v,
{
}

/// A word assembled from two bytes splits back into the same bytes.
pub proof fn lemma_word_split(lo: u8, hi: u8)
    ensures
        low_byte(word_from(lo, hi)) == lo,
        high_byte(word_from(lo, hi)) == hi,
{
}

} // verus!
