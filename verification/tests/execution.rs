//! Tests of the machine state, the register-aliasing accessors and the
//! execution engine.

use sim8086::ExecError;
use sim8086::dis::Dissassembler;
use sim8086::emu::{Emulator, EmulatorFlags, EmulatorRegisters, GeneralRegister, SpecialRegister};
use sim8086::inst::{
    ArithmeticFamily, ArithmeticVariant, ConditionalJumpVariant, ImmediateValue, Instruction,
    MoveVariant, Opcode, Operand, Register,
};

fn imm8(v: i8) -> Operand {
    Operand::ImmediateValue(ImmediateValue::EightBits(v))
}

fn imm16(v: i16) -> Operand {
    Operand::ImmediateValue(ImmediateValue::SixteenBits(v))
}

fn arith(family: ArithmeticFamily, dest: Operand, source: Operand) -> Instruction {
    Instruction {
        opcode: Opcode::Arithmetic { variant: ArithmeticVariant::ImmRegMem, family },
        destination: Some(dest),
        source: Some(source),
        total_bytes: 3,
    }
}

#[test]
fn general_register_aliasing() {
    let mut reg = GeneralRegister(0);
    reg.set(0x1234);
    assert_eq!(reg.get(), 0x1234);
    assert_eq!(reg.get_low(), 0x34);
    assert_eq!(reg.get_high(), 0x12);
    // Writing a half preserves the other half.
    reg.set_low(0x56);
    assert_eq!(reg.get(), 0x1256);
    reg.set_high(0x78);
    assert_eq!(reg.get(), 0x7856);
    // Negative halves are stored as their two's-complement bytes.
    reg.set_low(-1);
    assert_eq!(reg.get(), 0x78FF);
    assert_eq!(reg.get_low(), -1);
    // Writing the whole register overwrites both halves.
    reg.set(0x0102);
    assert_eq!(reg.get_low(), 0x02);
    assert_eq!(reg.get_high(), 0x01);
}

#[test]
fn special_register_whole_access() {
    let mut reg = SpecialRegister(0);
    reg.set(-2);
    assert_eq!(reg.get(), -2);
    assert_eq!(reg.0, 0xFFFE);
}

#[test]
fn fresh_machine_is_all_zero() {
    let emu = Emulator::new();
    assert_eq!(emu.instruction_pointer, 0);
    assert_eq!(emu.get_register(Register::AX), Ok(0));
    assert_eq!(emu.get_register(Register::SP), Ok(0));
    assert!(!emu.flags.zero);
    assert!(!emu.flags.sign);
    assert_eq!(emu.load_from_memory(0), 0);
    assert_eq!(emu.load_from_memory(0xFFFE), 0);
}

#[test]
fn register_file_construction() {
    let regs = EmulatorRegisters::new();
    assert_eq!(regs.reg_a.get(), 0);
    assert_eq!(regs.reg_si.get(), 0);
    let flags = EmulatorFlags::new();
    assert!(!flags.zero && !flags.sign);
}

#[test]
fn half_register_accessors_refuse_wrong_names() {
    let mut emu = Emulator::new();
    assert_eq!(emu.get_register_low(Register::SP), Err(ExecError::UnsupportedOperation));
    assert_eq!(emu.get_register_low(Register::AH), Err(ExecError::UnsupportedOperation));
    assert_eq!(emu.get_register_high(Register::AL), Err(ExecError::UnsupportedOperation));
    assert_eq!(emu.get_register(Register::AL), Err(ExecError::UnsupportedOperation));
    assert_eq!(emu.set_register(Register::AL, 1), Err(ExecError::UnsupportedOperation));
    assert_eq!(emu.set_register_low(Register::SI, 1), Err(ExecError::UnsupportedOperation));
    assert_eq!(emu.set_register_high(Register::DL, 1), Err(ExecError::UnsupportedOperation));
}

#[test]
fn emulator_accessors_alias_correctly() {
    let mut emu = Emulator::new();
    emu.set_register(Register::BX, 0x1234).unwrap();
    assert_eq!(emu.get_register_low(Register::BL), Ok(0x34));
    assert_eq!(emu.get_register_high(Register::BH), Ok(0x12));
    emu.set_register_high(Register::BH, 0x56).unwrap();
    assert_eq!(emu.get_register(Register::BX), Ok(0x5634));
    emu.set_register_low(Register::BL, 0x78).unwrap();
    assert_eq!(emu.get_register(Register::BX), Ok(0x5678));
}

#[test]
fn memory_store_is_little_endian() {
    let mut emu = Emulator::new();
    emu.store_into_memory(0x1000, 0x1234);
    assert_eq!(emu.load_from_memory(0x1000), 0x1234);
    assert_eq!(emu.load_from_memory(0x0FFF), 0x3400);
    assert_eq!(emu.load_from_memory(0x1001), 0x0012);
}

#[test]
fn operand_values_sign_extend() {
    let mut emu = Emulator::new();
    emu.set_register(Register::CX, 0x12F0).unwrap();
    assert_eq!(emu.get_operand_value(&imm8(-2)), Ok(-2));
    assert_eq!(emu.get_operand_value(&imm16(300)), Ok(300));
    assert_eq!(emu.get_operand_value(&Operand::Register(Register::CX)), Ok(0x12F0));
    // The low byte 0xF0 reads as -16 through the 8-bit view.
    assert_eq!(emu.get_operand_value(&Operand::Register(Register::CL)), Ok(-16));
    assert_eq!(emu.get_operand_value(&Operand::Register(Register::CH)), Ok(0x12));
    assert_eq!(
        emu.get_operand_value(&Operand::Address(4)),
        Err(ExecError::UnsupportedOperation)
    );
}

#[test]
fn execute_move_immediate_into_ax() {
    // Bytes [0xB8, 0x05, 0x00]: move immediate 5 into AX, length 3.
    let program = [0xB8, 0x05, 0x00];
    let dis = Dissassembler::new(&program);
    let inst = dis.get_instruction_at(0).unwrap().unwrap();
    let mut emu = Emulator::new();
    emu.execute_instruction(&inst).unwrap();
    assert_eq!(emu.get_register(Register::AX), Ok(5));
    assert!(!emu.flags.zero);
    assert_eq!(emu.instruction_pointer, 3);
}

#[test]
fn execute_register_subtract_to_zero() {
    // Bytes [0x29, 0xD8]: subtract BX from AX, both 16-bit.
    let program = [0x29, 0xD8];
    let dis = Dissassembler::new(&program);
    let inst = dis.get_instruction_at(0).unwrap().unwrap();
    assert_eq!(inst.total_bytes, 2);
    assert!(matches!(
        inst.opcode,
        Opcode::Arithmetic { family: ArithmeticFamily::Sub, .. }
    ));
    let mut emu = Emulator::new();
    emu.set_register(Register::AX, 10).unwrap();
    emu.set_register(Register::BX, 10).unwrap();
    emu.execute_instruction(&inst).unwrap();
    assert_eq!(emu.get_register(Register::AX), Ok(0));
    assert!(emu.flags.zero);
    assert!(!emu.flags.sign);
}

#[test]
fn execute_jump_not_equal_backwards() {
    // Bytes [0x75, 0xFE]: jump if not equal, displacement -2. With Zero
    // clear and the instruction pointer at 10, execution lands back on the
    // jump itself: 10 + 2 - 2 = 10.
    let program = [0x75, 0xFE];
    let dis = Dissassembler::new(&program);
    let inst = dis.get_instruction_at(0).unwrap().unwrap();
    let mut emu = Emulator::new();
    emu.instruction_pointer = 10;
    emu.flags.zero = false;
    emu.execute_instruction(&inst).unwrap();
    assert_eq!(emu.instruction_pointer, 10);
    // With Zero set the jump is not taken and the pointer moves past it.
    emu.flags.zero = true;
    emu.execute_instruction(&inst).unwrap();
    assert_eq!(emu.instruction_pointer, 12);
}

#[test]
fn execute_jump_on_sign_flag() {
    let mut emu = Emulator::new();
    let jump = Instruction {
        opcode: Opcode::ConditionalJump { variant: ConditionalJumpVariant::Js },
        destination: Some(imm8(4)),
        source: None,
        total_bytes: 2,
    };
    emu.flags.sign = true;
    emu.execute_instruction(&jump).unwrap();
    assert_eq!(emu.instruction_pointer, 6);
    let jump_clear = Instruction {
        opcode: Opcode::ConditionalJump { variant: ConditionalJumpVariant::Jns },
        destination: Some(imm8(4)),
        source: None,
        total_bytes: 2,
    };
    emu.execute_instruction(&jump_clear).unwrap();
    assert_eq!(emu.instruction_pointer, 8);
}

#[test]
fn execute_unmodeled_jump_fails_loudly() {
    // The overflow-flag jump depends on a flag this machine does not
    // track: executing it must be an error, not a silent no-op.
    let mut emu = Emulator::new();
    emu.instruction_pointer = 7;
    let jump = Instruction {
        opcode: Opcode::ConditionalJump { variant: ConditionalJumpVariant::Jo },
        destination: Some(imm8(4)),
        source: None,
        total_bytes: 2,
    };
    assert_eq!(emu.execute_instruction(&jump), Err(ExecError::UnsupportedOperation));
    // The state is untouched, the instruction pointer included.
    assert_eq!(emu.instruction_pointer, 7);
}

#[test]
fn execute_loop_forms_are_unsupported() {
    let mut emu = Emulator::new();
    for variant in [
        ConditionalJumpVariant::Loop,
        ConditionalJumpVariant::LoopzLoope,
        ConditionalJumpVariant::LoopnzLoopne,
        ConditionalJumpVariant::Jcxz,
    ] {
        let jump = Instruction {
            opcode: Opcode::ConditionalJump { variant },
            destination: Some(imm8(1)),
            source: None,
            total_bytes: 2,
        };
        assert_eq!(emu.execute_instruction(&jump), Err(ExecError::UnsupportedOperation));
        assert_eq!(emu.instruction_pointer, 0);
    }
}

#[test]
fn execute_add_then_subtract_restores_the_register() {
    let mut emu = Emulator::new();
    emu.set_register(Register::BX, 0x7FF0).unwrap();
    let dest = Operand::Register(Register::BX);
    // The addition wraps past the signed maximum; the subtraction brings
    // the register back regardless.
    emu.execute_instruction(&arith(ArithmeticFamily::Add, dest, imm16(0x123))).unwrap();
    emu.execute_instruction(&arith(ArithmeticFamily::Sub, dest, imm16(0x123))).unwrap();
    assert_eq!(emu.get_register(Register::BX), Ok(0x7FF0));
    // The flags reflect the second operation only: its result was the
    // positive value 0x7FF0.
    assert!(!emu.flags.zero);
    assert!(!emu.flags.sign);
    assert_eq!(emu.instruction_pointer, 6);
}

#[test]
fn execute_add_then_subtract_restores_a_half_register() {
    let mut emu = Emulator::new();
    emu.set_register(Register::DX, 0x12FE).unwrap();
    let dest = Operand::Register(Register::DL);
    emu.execute_instruction(&arith(ArithmeticFamily::Add, dest, imm8(5))).unwrap();
    // The low byte wrapped; the high byte must be untouched.
    assert_eq!(emu.get_register(Register::DX), Ok(0x1203));
    emu.execute_instruction(&arith(ArithmeticFamily::Sub, dest, imm8(5))).unwrap();
    assert_eq!(emu.get_register(Register::DX), Ok(0x12FE));
}

#[test]
fn execute_compare_sets_flags_without_storing() {
    let mut emu = Emulator::new();
    emu.set_register(Register::CX, 3).unwrap();
    emu.execute_instruction(&arith(
        ArithmeticFamily::Cmp,
        Operand::Register(Register::CX),
        imm16(5),
    ))
    .unwrap();
    assert_eq!(emu.get_register(Register::CX), Ok(3));
    assert!(!emu.flags.zero);
    assert!(emu.flags.sign);
    emu.execute_instruction(&arith(
        ArithmeticFamily::Cmp,
        Operand::Register(Register::CX),
        imm16(3),
    ))
    .unwrap();
    assert!(emu.flags.zero);
    assert!(!emu.flags.sign);
}

#[test]
fn execute_add_negative_immediate() {
    // An 8-bit immediate is sign-extended for 16-bit arithmetic.
    let mut emu = Emulator::new();
    emu.set_register(Register::AX, 0).unwrap();
    emu.execute_instruction(&arith(
        ArithmeticFamily::Sub,
        Operand::Register(Register::AX),
        imm8(-1),
    ))
    .unwrap();
    assert_eq!(emu.get_register(Register::AX), Ok(1));
}

#[test]
fn execute_move_between_half_registers() {
    let mut emu = Emulator::new();
    emu.set_register(Register::AX, 0x0190).unwrap();
    let mov = Instruction {
        opcode: Opcode::Move { variant: MoveVariant::RegMemToFromReg },
        destination: Some(Operand::Register(Register::BH)),
        source: Some(Operand::Register(Register::AL)),
        total_bytes: 2,
    };
    emu.execute_instruction(&mov).unwrap();
    assert_eq!(emu.get_register(Register::BX), Ok(-28672)); // cell 0x9000
    assert_eq!(emu.get_register_high(Register::BH), Ok(-112));
}

#[test]
fn execute_move_rejects_cross_width_registers() {
    let mut emu = Emulator::new();
    emu.set_register(Register::AX, 0x0102).unwrap();
    let mov = Instruction {
        opcode: Opcode::Move { variant: MoveVariant::RegMemToFromReg },
        destination: Some(Operand::Register(Register::BX)),
        source: Some(Operand::Register(Register::AL)),
        total_bytes: 2,
    };
    assert_eq!(emu.execute_instruction(&mov), Err(ExecError::TypeMismatch));
    assert_eq!(emu.instruction_pointer, 0);
    assert_eq!(emu.get_register(Register::BX), Ok(0));
}

#[test]
fn execute_move_rejects_mismatched_immediate_width() {
    let mut emu = Emulator::new();
    let mov = Instruction {
        opcode: Opcode::Move { variant: MoveVariant::ImmToReg },
        destination: Some(Operand::Register(Register::AX)),
        source: Some(imm8(1)),
        total_bytes: 2,
    };
    assert_eq!(emu.execute_instruction(&mov), Err(ExecError::TypeMismatch));
    let mov = Instruction {
        opcode: Opcode::Move { variant: MoveVariant::ImmToReg },
        destination: Some(Operand::Register(Register::AL)),
        source: Some(imm16(1)),
        total_bytes: 3,
    };
    assert_eq!(emu.execute_instruction(&mov), Err(ExecError::TypeMismatch));
}

#[test]
fn execute_move_immediate_to_memory() {
    let program = [0xC7, 0x06, 0x00, 0x10, 0x34, 0x12];
    let dis = Dissassembler::new(&program);
    let inst = dis.get_instruction_at(0).unwrap().unwrap();
    let mut emu = Emulator::new();
    emu.execute_instruction(&inst).unwrap();
    assert_eq!(emu.load_from_memory(0x1000), 0x1234);
    assert_eq!(emu.instruction_pointer, 6);
}

#[test]
fn execute_memory_to_accumulator() {
    let program = [0xA1, 0x00, 0x20];
    let dis = Dissassembler::new(&program);
    let inst = dis.get_instruction_at(0).unwrap().unwrap();
    let mut emu = Emulator::new();
    emu.store_into_memory(0x2000, 0xBEEF);
    emu.execute_instruction(&inst).unwrap();
    assert_eq!(emu.get_register(Register::AX), Ok(-16657)); // cell 0xBEEF
}

#[test]
fn execute_accumulator_to_memory() {
    let program = [0xA3, 0x00, 0x30];
    let dis = Dissassembler::new(&program);
    let inst = dis.get_instruction_at(0).unwrap().unwrap();
    let mut emu = Emulator::new();
    emu.set_register(Register::AX, 0x0102).unwrap();
    emu.execute_instruction(&inst).unwrap();
    assert_eq!(emu.load_from_memory(0x3000), 0x0102);
}

#[test]
fn execute_effective_address_operand_is_unsupported() {
    // The engine evaluates direct addresses only; an effective-address
    // operand is refused without touching the state.
    let program = [0x89, 0x40, 0x04];
    let dis = Dissassembler::new(&program);
    let inst = dis.get_instruction_at(0).unwrap().unwrap();
    let mut emu = Emulator::new();
    assert_eq!(emu.execute_instruction(&inst), Err(ExecError::UnsupportedOperation));
    assert_eq!(emu.instruction_pointer, 0);
}

#[test]
fn execute_word_store_at_the_address_space_edge_is_refused() {
    // A 16-bit store at the last byte would need a byte outside the
    // modeled address space.
    let mut emu = Emulator::new();
    let mov = Instruction {
        opcode: Opcode::Move { variant: MoveVariant::ImmToRegMem },
        destination: Some(Operand::Address(0xFFFF)),
        source: Some(imm16(1)),
        total_bytes: 6,
    };
    assert_eq!(emu.execute_instruction(&mov), Err(ExecError::UnsupportedOperation));
    assert_eq!(emu.instruction_pointer, 0);
    // One byte lower both bytes fit.
    let mov = Instruction {
        opcode: Opcode::Move { variant: MoveVariant::ImmToRegMem },
        destination: Some(Operand::Address(0xFFFE)),
        source: Some(imm16(0x0102)),
        total_bytes: 6,
    };
    emu.execute_instruction(&mov).unwrap();
    assert_eq!(emu.load_from_memory(0xFFFE), 0x0102);
}

#[test]
fn execute_unrecognized_opcode_is_an_error() {
    let mut emu = Emulator::new();
    let placeholder = Instruction {
        opcode: Opcode::NotImplemented,
        destination: None,
        source: None,
        total_bytes: 1,
    };
    assert_eq!(emu.execute_instruction(&placeholder), Err(ExecError::UnsupportedOperation));
    assert_eq!(emu.instruction_pointer, 0);
}

#[test]
fn fetch_execute_loop_over_a_small_program() {
    // mov ax, 5; mov bx, 3; sub ax, bx; cmp ax, 2 — driven as the external
    // loop would drive it, stopping at the end of the buffer.
    let program = [
        0xB8, 0x05, 0x00, // mov ax, 5
        0xBB, 0x03, 0x00, // mov bx, 3
        0x29, 0xD8, // sub ax, bx
        0x3D, 0x02, 0x00, // cmp ax, 2
    ];
    let dis = Dissassembler::new(&program);
    let mut emu = Emulator::new();
    let mut steps: u32 = 0;
    while let Some(inst) = dis.get_instruction_at(emu.instruction_pointer as usize).unwrap() {
        emu.execute_instruction(&inst).unwrap();
        steps += 1;
        assert!(steps <= 16, "the driving loop failed to terminate");
    }
    assert_eq!(steps, 4);
    assert_eq!(emu.get_register(Register::AX), Ok(2));
    assert_eq!(emu.get_register(Register::BX), Ok(3));
    assert!(emu.flags.zero);
    assert_eq!(emu.instruction_pointer, 11);
}
