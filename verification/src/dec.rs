//! Bit-field extractors: total functions that pull the fixed-width fields
//! of an instruction encoding out of a byte at a given bit offset.

use vstd::prelude::*;

use crate::inst::{Register, RegisterSize, spec_register_of};

verus! {

/// The width bit: the single bit of `byte` at offset `at`.
pub fn decode_w(byte: u8, at: u8) -> (r: u8)
    requires
        at < 8,
    ensures
        r == (byte >> at) & 1,
        r <= 1,
{
    proof {
        assert((byte >> at) & 1 <= 1) by (bit_vector);
    }
    (byte >> at) & 1
}

/// The direction bit: the single bit of `byte` at offset `at`.
pub fn decode_d(byte: u8, at: u8) -> (r: u8)
    requires
        at < 8,
    ensures
        r == (byte >> at) & 1,
        r <= 1,
{
    decode_w(byte, at)
}

/// The sign-extend bit: the single bit of `byte` at offset `at`.
pub fn decode_s(byte: u8, at: u8) -> (r: u8)
    requires
        at < 8,
    ensures
        r == (byte >> at) & 1,
        r <= 1,
{
    decode_w(byte, at)
}

/// The register field: the 3 bits of `byte` whose highest bit sits at
/// offset `from`.
pub fn decode_reg(byte: u8, from: u8) -> (r: u8)
    requires
        2 <= from < 10,
    ensures
        r == (byte >> (from - 2) as u8) & 7,
        r < 8,
{
    let shift: u8 = from - 2;
    proof {
        assert((byte >> shift) & 7 < 8) by (bit_vector);
    }
    (byte >> shift) & 7
}

/// The register/memory field: the 3 bits of `byte` whose highest bit sits
/// at offset `from`.
pub fn decode_rm(byte: u8, from: u8) -> (r: u8)
    requires
        2 <= from < 10,
    ensures
        r == (byte >> (from - 2) as u8) & 7,
        r < 8,
{
    decode_reg(byte, from)
}

/// The mode field: the 2 bits of `byte` whose highest bit sits at offset
/// `from`.
pub fn decode_mode(byte: u8, from: u8) -> (r: u8)
    requires
        1 <= from < 9,
    ensures
        r == (byte >> (from - 1) as u8) & 3,
        r < 4,
{
    let shift: u8 = from - 1;
    proof {
        assert((byte >> shift) & 3 < 4) by (bit_vector);
    }
    (byte >> shift) & 3
}

/// The register named by the 3-bit field of `byte` whose highest bit sits
/// at offset `from`, under the given operand width.
pub fn decode_register(byte: u8, from: u8, size: RegisterSize) -> (r: Register)
    requires
        2 <= from < 10,
    ensures
        r == spec_register_of(
            (byte >> (from - 2) as u8) & 7,
            size == RegisterSize::SixteenBits,
        ),
{
    let value: u8 = decode_reg(byte, from);
    match size {
        RegisterSize::EightBits => {
            if value == 0 { Register::AL }
            else if value == 1 { Register::CL }
            else if value == 2 { Register::DL }
            else if value == 3 { Register::BL }
            else if value == 4 { Register::AH }
            else if value == 5 { Register::CH }
            else if value == 6 { Register::DH }
            else { Register::BH }
        }
        RegisterSize::SixteenBits => {
            if value == 0 { Register::AX }
            else if value == 1 { Register::CX }
            else if value == 2 { Register::DX }
            else if value == 3 { Register::BX }
            else if value == 4 { Register::SP }
            else if value == 5 { Register::BP }
            else if value == 6 { Register::SI }
            else { Register::DI }
        }
    }
}

} // verus!
