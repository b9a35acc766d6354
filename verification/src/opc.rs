//! The opcode classifier: priority-ordered pattern matching of the leading
//! bits of the first stream byte, with a secondary field inside the second
//! byte telling the arithmetic families apart where the first byte alone is
//! ambiguous.

use vstd::prelude::*;

use crate::inst::{
    ArithmeticFamily, ArithmeticVariant, ConditionalJumpVariant, MoveVariant, Opcode,
};

verus! {

/// The move variant matched by the leading bits of the first byte, if any.
pub open spec fn spec_try_decode_move(byte: u8) -> Option<MoveVariant> {
    if byte >> 2 == 0b100010 {
        Some(MoveVariant::RegMemToFromReg)
    } else if byte >> 1 == 0b1100011 {
        Some(MoveVariant::ImmToRegMem)
    } else if byte >> 4 == 0b1011 {
        Some(MoveVariant::ImmToReg)
    } else if byte >> 1 == 0b1010000 {
        Some(MoveVariant::MemToAcc)
    } else if byte >> 1 == 0b1010001 {
        Some(MoveVariant::AccToMem)
    } else {
        None
    }
}

/// The arithmetic family and variant matched by the two bytes, if any. The
/// immediate-to-register/memory pattern shares its leading bits among the
/// three families; the 3-bit field inside the second byte selects one, and
/// field values naming unmodeled operations match nothing.
pub open spec fn spec_try_decode_arithmetic(first_byte: u8, second_byte: u8) -> Option<
    (ArithmeticFamily, ArithmeticVariant),
> {
    if first_byte >> 2 == 0b000000 {
        Some((ArithmeticFamily::Add, ArithmeticVariant::RegMemAndRegEither))
    } else if first_byte >> 2 == 0b100000 {
        if (second_byte >> 3) & 7 == 0b000 {
            Some((ArithmeticFamily::Add, ArithmeticVariant::ImmRegMem))
        } else if (second_byte >> 3) & 7 == 0b101 {
            Some((ArithmeticFamily::Sub, ArithmeticVariant::ImmRegMem))
        } else if (second_byte >> 3) & 7 == 0b111 {
            Some((ArithmeticFamily::Cmp, ArithmeticVariant::ImmRegMem))
        } else {
            None
        }
    } else if first_byte >> 1 == 0b0000010 {
        Some((ArithmeticFamily::Add, ArithmeticVariant::ImmAcc))
    } else if first_byte >> 2 == 0b001010 {
        Some((ArithmeticFamily::Sub, ArithmeticVariant::RegMemAndRegEither))
    } else if first_byte >> 1 == 0b0010110 {
        Some((ArithmeticFamily::Sub, ArithmeticVariant::ImmAcc))
    } else if first_byte >> 2 == 0b001110 {
        Some((ArithmeticFamily::Cmp, ArithmeticVariant::RegMemAndRegEither))
    } else if first_byte >> 1 == 0b0011110 {
        Some((ArithmeticFamily::Cmp, ArithmeticVariant::ImmAcc))
    } else {
        None
    }
}

/// The conditional-jump variant whose single-byte opcode equals the byte,
/// if any.
pub open spec fn spec_try_decode_jump(byte: u8) -> Option<ConditionalJumpVariant> {
    if byte == 0b01110100 { Some(ConditionalJumpVariant::JeJz) }
    else if byte == 0b01111100 { Some(ConditionalJumpVariant::JlJnge) }
    else if byte == 0b01111110 { Some(ConditionalJumpVariant::JleJng) }
    else if byte == 0b01110010 { Some(ConditionalJumpVariant::JbJnae) }
    else if byte == 0b01110110 { Some(ConditionalJumpVariant::JbeJna) }
    else if byte == 0b01111010 { Some(ConditionalJumpVariant::JpJpe) }
    else if byte == 0b01110000 { Some(ConditionalJumpVariant::Jo) }
    else if byte == 0b01111000 { Some(ConditionalJumpVariant::Js) }
    else if byte == 0b01110101 { Some(ConditionalJumpVariant::JneJnz) }
    else if byte == 0b01111101 { Some(ConditionalJumpVariant::JnlJge) }
    else if byte == 0b01111111 { Some(ConditionalJumpVariant::JnleJg) }
    else if byte == 0b01110011 { Some(ConditionalJumpVariant::JnbJae) }
    else if byte == 0b01110111 { Some(ConditionalJumpVariant::JnbeJa) }
    else if byte == 0b01111011 { Some(ConditionalJumpVariant::JnpJpo) }
    else if byte == 0b01110001 { Some(ConditionalJumpVariant::Jno) }
    else if byte == 0b01111001 { Some(ConditionalJumpVariant::Jns) }
    else if byte == 0b11100010 { Some(ConditionalJumpVariant::Loop) }
    else if byte == 0b11100001 { Some(ConditionalJumpVariant::LoopzLoope) }
    else if byte == 0b11100000 { Some(ConditionalJumpVariant::LoopnzLoopne) }
    else if byte == 0b11100011 { Some(ConditionalJumpVariant::Jcxz) }
    else { None }
}

/// The classification of the first one or two stream bytes: moves first,
/// arithmetic next, conditional jumps last, and `NotImplemented` for a byte
/// no pattern matches.
pub open spec fn spec_parse_opcode(first_byte: u8, second_byte: u8) -> Opcode {
    match spec_try_decode_move(first_byte) {
        Some(variant) => Opcode::Move { variant },
        None => match spec_try_decode_arithmetic(first_byte, second_byte) {
            Some((family, variant)) => Opcode::Arithmetic { variant, family },
            None => match spec_try_decode_jump(first_byte) {
                Some(variant) => Opcode::ConditionalJump { variant },
                None => Opcode::NotImplemented,
            },
        },
    }
}

/// Whether classifying the first byte consults the second byte at all:
/// only the shared immediate-to-register/memory arithmetic pattern does.
pub open spec fn spec_classify_needs_second_byte(first_byte: u8) -> bool {
    first_byte >> 2 == 0b100000
}

fn try_decode_move(byte: u8) -> (r: Option<MoveVariant>)
    ensures
        r == spec_try_decode_move(byte),
{
    if byte >> 2 == 0b100010 {
        Some(MoveVariant::RegMemToFromReg)
    } else if byte >> 1 == 0b1100011 {
        Some(MoveVariant::ImmToRegMem)
    } else if byte >> 4 == 0b1011 {
        Some(MoveVariant::ImmToReg)
    } else if byte >> 1 == 0b1010000 {
        Some(MoveVariant::MemToAcc)
    } else if byte >> 1 == 0b1010001 {
        Some(MoveVariant::AccToMem)
    } else {
        None
    }
}

fn try_decode_arithmetic(first_byte: u8, second_byte: u8) -> (r: Option<
    (ArithmeticFamily, ArithmeticVariant),
>)
    ensures
        r == spec_try_decode_arithmetic(first_byte, second_byte),
{
    if first_byte >> 2 == 0b000000 {
        Some((ArithmeticFamily::Add, ArithmeticVariant::RegMemAndRegEither))
    } else if first_byte >> 2 == 0b100000 {
        let field: u8 = (second_byte >> 3) & 7;
        if field == 0b000 {
            Some((ArithmeticFamily::Add, ArithmeticVariant::ImmRegMem))
        } else if field == 0b101 {
            Some((ArithmeticFamily::Sub, ArithmeticVariant::ImmRegMem))
        } else if field == 0b111 {
            Some((ArithmeticFamily::Cmp, ArithmeticVariant::ImmRegMem))
        } else {
            None
        }
    } else if first_byte >> 1 == 0b0000010 {
        Some((ArithmeticFamily::Add, ArithmeticVariant::ImmAcc))
    } else if first_byte >> 2 == 0b001010 {
        Some((ArithmeticFamily::Sub, ArithmeticVariant::RegMemAndRegEither))
    } else if first_byte >> 1 == 0b0010110 {
        Some((ArithmeticFamily::Sub, ArithmeticVariant::ImmAcc))
    } else if first_byte >> 2 == 0b001110 {
        Some((ArithmeticFamily::Cmp, ArithmeticVariant::RegMemAndRegEither))
    } else if first_byte >> 1 == 0b0011110 {
        Some((ArithmeticFamily::Cmp, ArithmeticVariant::ImmAcc))
    } else {
        None
    }
}

fn try_decode_jump(byte: u8) -> (r: Option<ConditionalJumpVariant>)
    ensures
        r == spec_try_decode_jump(byte),
{
    if byte == 0b01110100 { Some(ConditionalJumpVariant::JeJz) }
    else if byte == 0b01111100 { Some(ConditionalJumpVariant::JlJnge) }
    else if byte == 0b01111110 { Some(ConditionalJumpVariant::JleJng) }
    else if byte == 0b01110010 { Some(ConditionalJumpVariant::JbJnae) }
    else if byte == 0b01110110 { Some(ConditionalJumpVariant::JbeJna) }
    else if byte == 0b01111010 { Some(ConditionalJumpVariant::JpJpe) }
    else if byte == 0b01110000 { Some(ConditionalJumpVariant::Jo) }
    else if byte == 0b01111000 { Some(ConditionalJumpVariant::Js) }
    else if byte == 0b01110101 { Some(ConditionalJumpVariant::JneJnz) }
    else if byte == 0b01111101 { Some(ConditionalJumpVariant::JnlJge) }
    else if byte == 0b01111111 { Some(ConditionalJumpVariant::JnleJg) }
    else if byte == 0b01110011 { Some(ConditionalJumpVariant::JnbJae) }
    else if byte == 0b01110111 { Some(ConditionalJumpVariant::JnbeJa) }
    else if byte == 0b01111011 { Some(ConditionalJumpVariant::JnpJpo) }
    else if byte == 0b01110001 { Some(ConditionalJumpVariant::Jno) }
    else if byte == 0b01111001 { Some(ConditionalJumpVariant::Jns) }
    else if byte == 0b11100010 { Some(ConditionalJumpVariant::Loop) }
    else if byte == 0b11100001 { Some(ConditionalJumpVariant::LoopzLoope) }
    else if byte == 0b11100000 { Some(ConditionalJumpVariant::LoopnzLoopne) }
    else if byte == 0b11100011 { Some(ConditionalJumpVariant::Jcxz) }
    else { None }
}

/// Classifies the first one or two stream bytes into an opcode, trying the
/// move patterns, then the arithmetic patterns, then the conditional-jump
/// bytes, and yielding `NotImplemented` when nothing matches.
pub fn parse_opcode(first_byte: u8, second_byte: u8) -> (r: Opcode)
    ensures
        r == spec_parse_opcode(first_byte, second_byte),
{
    if let Some(variant) = try_decode_move(first_byte) {
        Opcode::Move { variant }
    } else if let Some((family, variant)) = try_decode_arithmetic(first_byte, second_byte) {
        Opcode::Arithmetic { variant, family }
    } else if let Some(variant) = try_decode_jump(first_byte) {
        Opcode::ConditionalJump { variant }
    } else {
        Opcode::NotImplemented
    }
}

} // verus!
