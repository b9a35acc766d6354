//! The effective-address resolver: maps a (mode, register/memory, width)
//! triple and up to two displacement bytes to an operand, and reports how
//! many stream bytes the operand form occupies, counting the opcode byte
//! and the addressing-mode byte.

use vstd::prelude::*;

use crate::DecodeError;
use crate::inst::{
    Displacement, EffectiveAddress, Operand, Register, spec_register_of,
};
use crate::values::{bits_to_i8, bits_to_i16, to_signed8, to_signed16, word_from, word_from_bytes};

verus! {

/// The single addressing table: the base register and optional index
/// register paired with each register/memory field value. The field value
/// 6 names BP alone, except in the no-displacement mode, where that
/// encoding is the direct-address case and this table is not consulted.
pub open spec fn spec_rm_base(rm: u8) -> (Register, Option<Register>) {
    if rm == 0 { (Register::BX, Some(Register::SI)) }
    else if rm == 1 { (Register::BX, Some(Register::DI)) }
    else if rm == 2 { (Register::BP, Some(Register::SI)) }
    else if rm == 3 { (Register::BP, Some(Register::DI)) }
    else if rm == 4 { (Register::SI, None) }
    else if rm == 5 { (Register::DI, None) }
    else if rm == 6 { (Register::BP, None) }
    else { (Register::BX, None) }
}

/// The memory reference assembled from a table row and an optional
/// displacement.
pub open spec fn spec_build_ea(
    base: Register,
    index: Option<Register>,
    disp: Option<Displacement>,
) -> EffectiveAddress {
    match (index, disp) {
        (None, None) => EffectiveAddress::JustRegister(base),
        (Some(i), None) => EffectiveAddress::RegisterAndOffset(base, i),
        (None, Some(d)) => EffectiveAddress::RegisterAndDisplacement(base, d),
        (Some(i), Some(d)) => EffectiveAddress::RegisterOffsetAndDisplacement(base, i, d),
    }
}

/// What the resolver yields for every field combination: the operand and
/// its byte count, or the truncated-stream error when a displacement byte
/// the mode demands is not present.
pub open spec fn spec_get_operand(
    mode: u8,
    rm: u8,
    w: u8,
    first_displacement_byte: Option<u8>,
    second_displacement_byte: Option<u8>,
) -> Result<(Operand, u8), DecodeError>
    recommends
        mode < 4,
        rm < 8,
{
    if mode == 3 {
        Ok((Operand::Register(spec_register_of(rm, w == 1)), 2))
    } else if mode == 0 {
        if rm == 6 {
            match (first_displacement_byte, second_displacement_byte) {
                (Some(lo), Some(hi)) => Ok((Operand::Address(word_from(lo, hi)), 4)),
                _ => Err(DecodeError::TruncatedInstruction),
            }
        } else {
            let (base, index) = spec_rm_base(rm);
            Ok((Operand::EffectiveAddress(spec_build_ea(base, index, None)), 2))
        }
    } else if mode == 1 {
        match first_displacement_byte {
            Some(b) => {
                let (base, index) = spec_rm_base(rm);
                let d = Displacement::EightBits(to_signed8(b));
                Ok((Operand::EffectiveAddress(spec_build_ea(base, index, Some(d))), 3))
            }
            None => Err(DecodeError::TruncatedInstruction),
        }
    } else {
        match (first_displacement_byte, second_displacement_byte) {
            (Some(lo), Some(hi)) => {
                let (base, index) = spec_rm_base(rm);
                let d = Displacement::SixteenBits(to_signed16(word_from(lo, hi)));
                Ok((Operand::EffectiveAddress(spec_build_ea(base, index, Some(d))), 4))
            }
            _ => Err(DecodeError::TruncatedInstruction),
        }
    }
}

/// Looks up the addressing table row for a register/memory field value.
fn rm_base(rm: u8) -> (r: (Register, Option<Register>))
    requires
        rm < 8,
    ensures
        r == spec_rm_base(rm),
{
    if rm == 0 { (Register::BX, Some(Register::SI)) }
    else if rm == 1 { (Register::BX, Some(Register::DI)) }
    else if rm == 2 { (Register::BP, Some(Register::SI)) }
    else if rm == 3 { (Register::BP, Some(Register::DI)) }
    else if rm == 4 { (Register::SI, None) }
    else if rm == 5 { (Register::DI, None) }
    else if rm == 6 { (Register::BP, None) }
    else { (Register::BX, None) }
}

/// Assembles the memory reference for a table row and an optional
/// displacement.
fn build_ea(base: Register, index: Option<Register>, disp: Option<Displacement>) -> (r:
    EffectiveAddress)
    ensures
        r == spec_build_ea(base, index, disp),
{
    match (index, disp) {
        (None, None) => EffectiveAddress::JustRegister(base),
        (Some(i), None) => EffectiveAddress::RegisterAndOffset(base, i),
        (None, Some(d)) => EffectiveAddress::RegisterAndDisplacement(base, d),
        (Some(i), Some(d)) => EffectiveAddress::RegisterOffsetAndDisplacement(base, i, d),
    }
}

/// Resolves the operand selected by the mode and register/memory fields.
///
/// Register-direct mode yields a register operand; the no-displacement mode
/// yields a base(+index) reference, except that the field value reserved
/// for "no base register" yields a direct address built from both
/// displacement bytes; the two remaining modes append an 8-bit or a 16-bit
/// little-endian displacement. A displacement byte that the mode demands
/// but the stream does not supply is a truncated-stream error.
pub fn get_operand(
    mode: u8,
    rm: u8,
    w: u8,
    first_displacement_byte: Option<u8>,
    second_displacement_byte: Option<u8>,
) -> (r: Result<(Operand, u8), DecodeError>)
    requires
        mode < 4,
        rm < 8,
    ensures
        r == spec_get_operand(mode, rm, w, first_displacement_byte, second_displacement_byte),
        r matches Ok((_, n)) ==> 2 <= n <= 4,
{
    if mode == 3 {
        let reg = if w == 1 {
            crate::dec::decode_register(rm, 2, crate::inst::RegisterSize::SixteenBits)
        } else {
            crate::dec::decode_register(rm, 2, crate::inst::RegisterSize::EightBits)
        };
        proof {
            assert(rm < 8 ==> (rm >> 0) & 7 == rm) by (bit_vector);
        }
        Ok((Operand::Register(reg), 2))
    } else if mode == 0 {
        if rm == 6 {
            match (first_displacement_byte, second_displacement_byte) {
                (Some(lo), Some(hi)) => Ok((Operand::Address(word_from_bytes(lo, hi)), 4)),
                _ => Err(DecodeError::TruncatedInstruction),
            }
        } else {
            let (base, index) = rm_base(rm);
            Ok((Operand::EffectiveAddress(build_ea(base, index, None)), 2))
        }
    } else if mode == 1 {
        match first_displacement_byte {
            Some(b) => {
                let (base, index) = rm_base(rm);
                let d = Displacement::EightBits(bits_to_i8(b));
                Ok((Operand::EffectiveAddress(build_ea(base, index, Some(d))), 3))
            }
            None => Err(DecodeError::TruncatedInstruction),
        }
    } else {
        match (first_displacement_byte, second_displacement_byte) {
            (Some(lo), Some(hi)) => {
                let (base, index) = rm_base(rm);
                let d = Displacement::SixteenBits(bits_to_i16(word_from_bytes(lo, hi)));
                Ok((Operand::EffectiveAddress(build_ea(base, index, Some(d))), 4))
            }
            _ => Err(DecodeError::TruncatedInstruction),
        }
    }
}

/// For every mode and register/memory field combination except the
/// direct-address exception, the resolver consumes exactly the two fixed
/// bytes plus 0, 1 or 2 displacement bytes as the mode 3/0/1/2 demands,
/// whenever it succeeds.
pub proof fn lemma_operand_size(mode: u8, rm: u8, w: u8, d1: Option<u8>, d2: Option<u8>)
    requires
        mode < 4,
        rm < 8,
        !(mode == 0 && rm == 6),
    ensures
        spec_get_operand(mode, rm, w, d1, d2) matches Ok((_, n)) ==> n == 2 + (
        if mode == 3 { 0u8 } else { mode }),
{
}

} // verus!
