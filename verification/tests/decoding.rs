//! Tests of the bit-field extractors, the opcode classifier, the
//! effective-address resolver and the instruction decoder.

use sim8086::DecodeError;
use sim8086::dec::{
    decode_d, decode_mode, decode_reg, decode_register, decode_rm, decode_s, decode_w,
};
use sim8086::dis::Dissassembler;
use sim8086::ea::get_operand;
use sim8086::enc::encode_move_immediate;
use sim8086::inst::{
    ArithmeticFamily, ArithmeticVariant, ConditionalJumpVariant, Displacement, EffectiveAddress,
    ImmediateValue, Instruction, MoveVariant, Opcode, Operand, Register, RegisterSize,
    swap_operands,
};
use sim8086::opc::parse_opcode;

#[test]
fn bit_field_extractors() {
    // 0x89 = 0b10001001: w bit (offset 0) set, d bit (offset 1) clear.
    assert_eq!(decode_w(0x89, 0), 1);
    assert_eq!(decode_d(0x89, 1), 0);
    assert_eq!(decode_s(0x83, 1), 1);
    // 0xD8 = 0b11011000: mode 11, reg field 011, rm field 000.
    assert_eq!(decode_mode(0xD8, 7), 0b11);
    assert_eq!(decode_reg(0xD8, 5), 0b011);
    assert_eq!(decode_rm(0xD8, 2), 0b000);
}

#[test]
fn register_field_tables() {
    assert_eq!(decode_register(0b000, 2, RegisterSize::SixteenBits), Register::AX);
    assert_eq!(decode_register(0b011, 2, RegisterSize::SixteenBits), Register::BX);
    assert_eq!(decode_register(0b110, 2, RegisterSize::SixteenBits), Register::SI);
    assert_eq!(decode_register(0b000, 2, RegisterSize::EightBits), Register::AL);
    assert_eq!(decode_register(0b100, 2, RegisterSize::EightBits), Register::AH);
    assert_eq!(decode_register(0b111, 2, RegisterSize::EightBits), Register::BH);
    // The same field read out of the middle of a full byte.
    assert_eq!(decode_register(0xD8, 5, RegisterSize::SixteenBits), Register::BX);
}

#[test]
fn classifier_recognizes_each_family() {
    assert!(matches!(
        parse_opcode(0x89, 0),
        Opcode::Move { variant: MoveVariant::RegMemToFromReg }
    ));
    assert!(matches!(parse_opcode(0xB8, 0), Opcode::Move { variant: MoveVariant::ImmToReg }));
    assert!(matches!(parse_opcode(0xC7, 0), Opcode::Move { variant: MoveVariant::ImmToRegMem }));
    assert!(matches!(parse_opcode(0xA1, 0), Opcode::Move { variant: MoveVariant::MemToAcc }));
    assert!(matches!(parse_opcode(0xA3, 0), Opcode::Move { variant: MoveVariant::AccToMem }));
    assert!(matches!(
        parse_opcode(0x01, 0),
        Opcode::Arithmetic {
            variant: ArithmeticVariant::RegMemAndRegEither,
            family: ArithmeticFamily::Add
        }
    ));
    assert!(matches!(
        parse_opcode(0x29, 0),
        Opcode::Arithmetic {
            variant: ArithmeticVariant::RegMemAndRegEither,
            family: ArithmeticFamily::Sub
        }
    ));
    assert!(matches!(
        parse_opcode(0x39, 0),
        Opcode::Arithmetic {
            variant: ArithmeticVariant::RegMemAndRegEither,
            family: ArithmeticFamily::Cmp
        }
    ));
    assert!(matches!(
        parse_opcode(0x05, 0),
        Opcode::Arithmetic { variant: ArithmeticVariant::ImmAcc, family: ArithmeticFamily::Add }
    ));
    assert!(matches!(
        parse_opcode(0x2C, 0),
        Opcode::Arithmetic { variant: ArithmeticVariant::ImmAcc, family: ArithmeticFamily::Sub }
    ));
    assert!(matches!(
        parse_opcode(0x3C, 0),
        Opcode::Arithmetic { variant: ArithmeticVariant::ImmAcc, family: ArithmeticFamily::Cmp }
    ));
}

#[test]
fn classifier_uses_second_byte_for_shared_pattern() {
    // 0x83 starts the shared immediate-to-register/memory pattern; bits
    // 3..6 of the second byte pick the family.
    assert!(matches!(
        parse_opcode(0x83, 0b00_000_000),
        Opcode::Arithmetic { variant: ArithmeticVariant::ImmRegMem, family: ArithmeticFamily::Add }
    ));
    assert!(matches!(
        parse_opcode(0x83, 0b00_101_000),
        Opcode::Arithmetic { variant: ArithmeticVariant::ImmRegMem, family: ArithmeticFamily::Sub }
    ));
    assert!(matches!(
        parse_opcode(0x83, 0b00_111_000),
        Opcode::Arithmetic { variant: ArithmeticVariant::ImmRegMem, family: ArithmeticFamily::Cmp }
    ));
    // A field value naming an unmodeled operation matches nothing.
    assert!(matches!(parse_opcode(0x83, 0b00_001_000), Opcode::NotImplemented));
}

#[test]
fn classifier_jump_bytes() {
    assert!(matches!(
        parse_opcode(0x74, 0),
        Opcode::ConditionalJump { variant: ConditionalJumpVariant::JeJz }
    ));
    assert!(matches!(
        parse_opcode(0x75, 0),
        Opcode::ConditionalJump { variant: ConditionalJumpVariant::JneJnz }
    ));
    assert!(matches!(
        parse_opcode(0x78, 0),
        Opcode::ConditionalJump { variant: ConditionalJumpVariant::Js }
    ));
    assert!(matches!(
        parse_opcode(0x79, 0),
        Opcode::ConditionalJump { variant: ConditionalJumpVariant::Jns }
    ));
    assert!(matches!(
        parse_opcode(0xE2, 0),
        Opcode::ConditionalJump { variant: ConditionalJumpVariant::Loop }
    ));
    assert!(matches!(
        parse_opcode(0xE3, 0),
        Opcode::ConditionalJump { variant: ConditionalJumpVariant::Jcxz }
    ));
    assert!(matches!(parse_opcode(0x0F, 0), Opcode::NotImplemented));
}

#[test]
fn operand_sizes_match_the_mode() {
    // Register-direct mode: two bytes, no displacement.
    let (op, n) = get_operand(0b11, 0b000, 1, None, None).unwrap();
    assert_eq!(op, Operand::Register(Register::AX));
    assert_eq!(n, 2);
    // No displacement: two bytes.
    let (op, n) = get_operand(0b00, 0b000, 1, None, None).unwrap();
    assert_eq!(
        op,
        Operand::EffectiveAddress(EffectiveAddress::RegisterAndOffset(Register::BX, Register::SI))
    );
    assert_eq!(n, 2);
    // 8-bit displacement: three bytes.
    let (op, n) = get_operand(0b01, 0b100, 1, Some(0x04), None).unwrap();
    assert_eq!(
        op,
        Operand::EffectiveAddress(EffectiveAddress::RegisterAndDisplacement(
            Register::SI,
            Displacement::EightBits(4)
        ))
    );
    assert_eq!(n, 3);
    // 16-bit displacement, little-endian: four bytes.
    let (op, n) = get_operand(0b10, 0b111, 1, Some(0x34), Some(0x12)).unwrap();
    assert_eq!(
        op,
        Operand::EffectiveAddress(EffectiveAddress::RegisterAndDisplacement(
            Register::BX,
            Displacement::SixteenBits(0x1234)
        ))
    );
    assert_eq!(n, 4);
}

#[test]
fn operand_direct_address_exception() {
    // Mode 00 with field 110 is the direct-address case: four bytes.
    let (op, n) = get_operand(0b00, 0b110, 1, Some(0x00), Some(0x10)).unwrap();
    assert_eq!(op, Operand::Address(0x1000));
    assert_eq!(n, 4);
    // With any other field value, 110 names BP alone.
    let (op, _) = get_operand(0b01, 0b110, 1, Some(0x05), None).unwrap();
    assert_eq!(
        op,
        Operand::EffectiveAddress(EffectiveAddress::RegisterAndDisplacement(
            Register::BP,
            Displacement::EightBits(5)
        ))
    );
}

#[test]
fn operand_missing_displacement_is_truncation() {
    assert_eq!(
        get_operand(0b01, 0b000, 1, None, None),
        Err(DecodeError::TruncatedInstruction)
    );
    assert_eq!(
        get_operand(0b10, 0b000, 1, Some(0x01), None),
        Err(DecodeError::TruncatedInstruction)
    );
    assert_eq!(
        get_operand(0b00, 0b110, 1, Some(0x01), None),
        Err(DecodeError::TruncatedInstruction)
    );
}

#[test]
fn decode_move_immediate_to_ax() {
    // "Move immediate 5 into AX": three bytes.
    let program = [0xB8, 0x05, 0x00];
    let dis = Dissassembler::new(&program);
    let inst = dis.get_instruction_at(0).unwrap().unwrap();
    assert!(matches!(inst.opcode, Opcode::Move { variant: MoveVariant::ImmToReg }));
    assert_eq!(inst.destination, Some(Operand::Register(Register::AX)));
    assert_eq!(inst.source, Some(Operand::ImmediateValue(ImmediateValue::SixteenBits(5))));
    assert_eq!(inst.total_bytes, 3);
}

#[test]
fn decode_register_to_register_subtract() {
    // Register-to-register subtract, BX from AX, both 16-bit: two bytes.
    let program = [0x29, 0xD8];
    let dis = Dissassembler::new(&program);
    let inst = dis.get_instruction_at(0).unwrap().unwrap();
    assert!(matches!(
        inst.opcode,
        Opcode::Arithmetic {
            variant: ArithmeticVariant::RegMemAndRegEither,
            family: ArithmeticFamily::Sub
        }
    ));
    assert_eq!(inst.destination, Some(Operand::Register(Register::AX)));
    assert_eq!(inst.source, Some(Operand::Register(Register::BX)));
    assert_eq!(inst.total_bytes, 2);
}

#[test]
fn decode_truncated_instruction_is_an_error() {
    // 0x89 needs a second byte; a one-byte buffer must not yield an
    // instruction.
    let program = [0x89];
    let dis = Dissassembler::new(&program);
    assert_eq!(dis.get_instruction_at(0), Err(DecodeError::TruncatedInstruction));
}

#[test]
fn decode_truncated_immediate_is_an_error() {
    let program = [0xB8, 0x05];
    let dis = Dissassembler::new(&program);
    assert_eq!(dis.get_instruction_at(0), Err(DecodeError::TruncatedInstruction));
    let program = [0x83];
    let dis = Dissassembler::new(&program);
    assert_eq!(dis.get_instruction_at(0), Err(DecodeError::TruncatedInstruction));
}

#[test]
fn decode_past_the_end_is_no_instruction() {
    let program = [0xB8, 0x05, 0x00];
    let dis = Dissassembler::new(&program);
    assert_eq!(dis.get_instruction_at(3), Ok(None));
    assert_eq!(dis.get_instruction_at(100), Ok(None));
    assert_eq!(dis.get_instruction_at(usize::MAX), Ok(None));
}

#[test]
fn decode_empty_stream_is_no_instruction() {
    let program: [u8; 0] = [];
    let dis = Dissassembler::new(&program);
    assert_eq!(dis.get_instruction_at(0), Ok(None));
}

#[test]
fn decode_is_idempotent() {
    let program = [0xB8, 0x05, 0x00, 0x29, 0xD8, 0x75, 0xFE];
    let dis = Dissassembler::new(&program);
    for position in 0..program.len() + 2 {
        assert_eq!(dis.get_instruction_at(position), dis.get_instruction_at(position));
    }
}

#[test]
fn decode_direction_bit_swaps_operands() {
    // 0x89 stores the register operand; 0x8B loads it.
    let program = [0x89, 0xD8];
    let dis = Dissassembler::new(&program);
    let inst = dis.get_instruction_at(0).unwrap().unwrap();
    assert_eq!(inst.destination, Some(Operand::Register(Register::AX)));
    assert_eq!(inst.source, Some(Operand::Register(Register::BX)));
    let program = [0x8B, 0xD8];
    let dis = Dissassembler::new(&program);
    let inst = dis.get_instruction_at(0).unwrap().unwrap();
    assert_eq!(inst.destination, Some(Operand::Register(Register::BX)));
    assert_eq!(inst.source, Some(Operand::Register(Register::AX)));
}

#[test]
fn decode_move_with_displacement() {
    // mov [bx + si + 4], ax: three bytes.
    let program = [0x89, 0x40, 0x04];
    let dis = Dissassembler::new(&program);
    let inst = dis.get_instruction_at(0).unwrap().unwrap();
    assert_eq!(
        inst.destination,
        Some(Operand::EffectiveAddress(EffectiveAddress::RegisterOffsetAndDisplacement(
            Register::BX,
            Register::SI,
            Displacement::EightBits(4)
        )))
    );
    assert_eq!(inst.source, Some(Operand::Register(Register::AX)));
    assert_eq!(inst.total_bytes, 3);
}

#[test]
fn decode_move_immediate_to_memory() {
    // mov word [0x1000], 0x1234: the immediate follows the displacement.
    let program = [0xC7, 0x06, 0x00, 0x10, 0x34, 0x12];
    let dis = Dissassembler::new(&program);
    let inst = dis.get_instruction_at(0).unwrap().unwrap();
    assert!(matches!(inst.opcode, Opcode::Move { variant: MoveVariant::ImmToRegMem }));
    assert_eq!(inst.destination, Some(Operand::Address(0x1000)));
    assert_eq!(inst.source, Some(Operand::ImmediateValue(ImmediateValue::SixteenBits(0x1234))));
    assert_eq!(inst.total_bytes, 6);
}

#[test]
fn decode_memory_to_accumulator() {
    let program = [0xA1, 0x00, 0x20];
    let dis = Dissassembler::new(&program);
    let inst = dis.get_instruction_at(0).unwrap().unwrap();
    assert!(matches!(inst.opcode, Opcode::Move { variant: MoveVariant::MemToAcc }));
    assert_eq!(inst.destination, Some(Operand::Register(Register::AX)));
    assert_eq!(inst.source, Some(Operand::Address(0x2000)));
    assert_eq!(inst.total_bytes, 3);
}

#[test]
fn decode_arith_immediate_sign_extended() {
    // sub ax, byte -1: the sign-extend bit set with a 16-bit width means a
    // single signed byte follows.
    let program = [0x83, 0xE8, 0xFF];
    let dis = Dissassembler::new(&program);
    let inst = dis.get_instruction_at(0).unwrap().unwrap();
    assert!(matches!(
        inst.opcode,
        Opcode::Arithmetic { variant: ArithmeticVariant::ImmRegMem, family: ArithmeticFamily::Sub }
    ));
    assert_eq!(inst.destination, Some(Operand::Register(Register::AX)));
    assert_eq!(inst.source, Some(Operand::ImmediateValue(ImmediateValue::EightBits(-1))));
    assert_eq!(inst.total_bytes, 3);
}

#[test]
fn decode_arith_immediate_full_word() {
    // add ax, 0x0102: sign-extend clear, width set: a full word follows.
    let program = [0x81, 0xC0, 0x02, 0x01];
    let dis = Dissassembler::new(&program);
    let inst = dis.get_instruction_at(0).unwrap().unwrap();
    assert!(matches!(
        inst.opcode,
        Opcode::Arithmetic { variant: ArithmeticVariant::ImmRegMem, family: ArithmeticFamily::Add }
    ));
    assert_eq!(inst.destination, Some(Operand::Register(Register::AX)));
    assert_eq!(inst.source, Some(Operand::ImmediateValue(ImmediateValue::SixteenBits(0x0102))));
    assert_eq!(inst.total_bytes, 4);
}

#[test]
fn decode_conditional_jump() {
    let program = [0x75, 0xFE];
    let dis = Dissassembler::new(&program);
    let inst = dis.get_instruction_at(0).unwrap().unwrap();
    assert!(matches!(
        inst.opcode,
        Opcode::ConditionalJump { variant: ConditionalJumpVariant::JneJnz }
    ));
    assert_eq!(inst.destination, Some(Operand::ImmediateValue(ImmediateValue::EightBits(-2))));
    assert_eq!(inst.source, None);
    assert_eq!(inst.total_bytes, 2);
}

#[test]
fn decode_unrecognized_byte_is_a_placeholder() {
    let program = [0x0F, 0xB8];
    let dis = Dissassembler::new(&program);
    let inst = dis.get_instruction_at(0).unwrap().unwrap();
    assert!(matches!(inst.opcode, Opcode::NotImplemented));
    assert_eq!(inst.destination, None);
    assert_eq!(inst.source, None);
    assert_eq!(inst.total_bytes, 1);
}

#[test]
fn move_immediate_round_trips_through_the_encoder() {
    let cases: Vec<Vec<u8>> = vec![
        vec![0xB8, 0x05, 0x00],
        vec![0xBB, 0x34, 0x12],
        vec![0xB1, 0x7F],
        vec![0xB4, 0x80],
        vec![0xBF, 0xFF, 0xFF],
    ];
    for bytes in cases {
        let dis = Dissassembler::new(&bytes);
        let inst = dis.get_instruction_at(0).unwrap().unwrap();
        let (dest, imm) = match (inst.destination, inst.source) {
            (
                Some(Operand::Register(dest)),
                Some(Operand::ImmediateValue(imm)),
            ) => (dest, imm),
            _ => panic!("move immediate decoded with unexpected operands"),
        };
        let encoded = encode_move_immediate(dest, imm).unwrap();
        assert_eq!(encoded, bytes);
    }
}

#[test]
fn encoder_refuses_mismatched_widths() {
    assert_eq!(encode_move_immediate(Register::AX, ImmediateValue::EightBits(1)), None);
    assert_eq!(encode_move_immediate(Register::AL, ImmediateValue::SixteenBits(1)), None);
}

#[test]
fn instruction_new_and_swap() {
    let inst = Instruction::new(
        Opcode::Move { variant: MoveVariant::RegMemToFromReg },
        Some(Operand::Register(Register::AX)),
        Some(Operand::Register(Register::BX)),
        2,
    );
    let swapped = swap_operands(inst);
    assert_eq!(swapped.destination, Some(Operand::Register(Register::BX)));
    assert_eq!(swapped.source, Some(Operand::Register(Register::AX)));
    assert_eq!(swapped.opcode, inst.opcode);
    assert_eq!(swapped.total_bytes, 2);
}
