//! Encoding of the move immediate-to-register form, the inverse direction
//! of the decoder on that subset, with the round-trip law relating the two.

use vstd::prelude::*;

use crate::DecodeError;
use crate::dis::{byte_at, spec_decode_at};
use crate::inst::{
    ImmediateValue, Instruction, MoveVariant, Opcode, Operand, Register, reg_is_wide,
    spec_register_code, spec_register_of,
};
use crate::values::{
    high_byte, i8_to_bits, i16_to_bits, low_byte, to_bits8, to_bits16, word_from,
};

verus! {

/// The bytes that encode "move this immediate into this register", when the
/// register's width class matches the immediate's width: the opcode byte
/// carries the width bit and the register field, and the immediate follows
/// little-endian.
pub open spec fn spec_encode_move_immediate(dest: Register, imm: ImmediateValue) -> Option<
    Seq<u8>,
> {
    match imm {
        ImmediateValue::EightBits(v) => if !reg_is_wide(dest) {
            Some(seq![(0xB0 + spec_register_code(dest)) as u8, to_bits8(v)])
        } else {
            None
        },
        ImmediateValue::SixteenBits(v) => if reg_is_wide(dest) {
            Some(
                seq![
                    (0xB8 + spec_register_code(dest)) as u8,
                    low_byte(to_bits16(v)),
                    high_byte(to_bits16(v)),
                ],
            )
        } else {
            None
        },
    }
}

/// Looks up the 3-bit field value that names a register in its width class.
fn register_code(r: Register) -> (c: u8)
    ensures
        c == spec_register_code(r),
        c < 8,
{
    match r {
        Register::AX | Register::AL => 0,
        Register::CX | Register::CL => 1,
        Register::DX | Register::DL => 2,
        Register::BX | Register::BL => 3,
        Register::SP | Register::AH => 4,
        Register::BP | Register::CH => 5,
        Register::SI | Register::DH => 6,
        Register::DI | Register::BH => 7,
    }
}

/// Encodes "move this immediate into this register" through the known bit
/// layout, or yields nothing when the register's width class does not
/// match the immediate's width.
pub fn encode_move_immediate(dest: Register, imm: ImmediateValue) -> (r: Option<Vec<u8>>)
    ensures
        r is Some <==> spec_encode_move_immediate(dest, imm) is Some,
        r matches Some(v) ==> spec_encode_move_immediate(dest, imm) == Some(v@),
{
    let wide = crate::inst::register_is_wide(dest);
    match imm {
        ImmediateValue::EightBits(v) => {
            if wide {
                None
            } else {
                let mut bytes: Vec<u8> = Vec::new();
                bytes.push(0xB0 + register_code(dest));
                bytes.push(i8_to_bits(v));
                proof {
                    assert(bytes@ =~= spec_encode_move_immediate(dest, imm).unwrap());
                }
                Some(bytes)
            }
        },
        ImmediateValue::SixteenBits(v) => {
            if wide {
                let w = i16_to_bits(v);
                let mut bytes: Vec<u8> = Vec::new();
                bytes.push(0xB8 + register_code(dest));
                bytes.push((w % 0x100) as u8);
                bytes.push((w / 0x100) as u8);
                proof {
                    assert(bytes@ =~= spec_encode_move_immediate(dest, imm).unwrap());
                }
                Some(bytes)
            } else {
                None
            }
        },
    }
}

/// Round trip on the move-immediate subset: whenever decoding yields a
/// move immediate-to-register instruction, encoding the observed
/// destination and immediate back through the known bit layout reproduces
/// exactly the bytes the decoder consumed.
pub proof fn lemma_move_immediate_round_trip(prog: Seq<u8>, pos: int, inst: Instruction)
    requires
        spec_decode_at(prog, pos) == Ok::<Option<Instruction>, DecodeError>(Some(inst)),
        inst.opcode == (Opcode::Move { variant: MoveVariant::ImmToReg }),
    ensures
        ({
            &&& inst.destination matches Some(Operand::Register(dest))
            &&& inst.source matches Some(Operand::ImmediateValue(imm))
            &&& spec_encode_move_immediate(dest, imm) == Some(
                prog.subrange(pos, pos + inst.total_bytes),
            )
        }),
{
    let b0 = prog[pos];
    let w = (b0 >> 3) & 1;
    let code = b0 & 7;
    assert(b0 >> 4 == 0b1011) by {
        if b0 >> 4 != 0b1011 {
            assert(false);
        }
    }
    assert(b0 & 7 < 8) by (bit_vector);
    assert((b0 >> 3) & 1 == 0 || (b0 >> 3) & 1 == 1) by (bit_vector);
    let dest = spec_register_of(code, w == 1);
    assert(spec_register_code(dest) == code);
    assert(reg_is_wide(dest) == (w == 1));
    if w == 1 {
        let lo = prog[pos + 1];
        let hi = prog[pos + 2];
        assert(byte_at(prog, pos + 1) == Some(lo) && byte_at(prog, pos + 2) == Some(hi));
        assert(0xB8 + code == b0) by (bit_vector)
            requires
                b0 >> 4 == 0b1011,
                (b0 >> 3) & 1 == 1,
                code == b0 & 7,
        ;
        crate::values::lemma_word_signed_round_trip(word_from(lo, hi), 0);
        crate::values::lemma_word_split(lo, hi);
        let enc = spec_encode_move_immediate(
            dest,
            ImmediateValue::SixteenBits(crate::values::to_signed16(word_from(lo, hi))),
        );
        assert(enc.unwrap() =~= prog.subrange(pos, pos + 3));
    } else {
        let lo = prog[pos + 1];
        assert(byte_at(prog, pos + 1) == Some(lo));
        assert(0xB0 + code == b0) by (bit_vector)
            requires
                b0 >> 4 == 0b1011,
                (b0 >> 3) & 1 == 0,
                code == b0 & 7,
        ;
        crate::values::lemma_byte_signed_round_trip(lo, 0);
        let enc = spec_encode_move_immediate(
            dest,
            ImmediateValue::EightBits(crate::values::to_signed8(lo)),
        );
        assert(enc.unwrap() =~= prog.subrange(pos, pos + 2));
    }
}

} // verus!
