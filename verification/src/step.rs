//! The execution engine: applies one decoded instruction to the machine
//! state. `spec_step` states the whole transition as a function of the
//! pre-state and the instruction; `execute_instruction` is proved to
//! realize exactly that transition, and to leave the state untouched
//! whenever it reports an error.

use vstd::prelude::*;

use crate::ExecError;
use crate::emu::{
    Emulator, MachineView, reg_is_low_half, spec_cell_of, spec_operand_value, spec_reg_value,
    spec_reg_write,
};
use crate::inst::{
    ArithmeticFamily, ConditionalJumpVariant, ImmediateValue, Instruction, Opcode, Operand,
    Register, reg_is_wide, register_is_wide,
};
use crate::values::{
    high_byte, i8_to_bits, i16_to_bits, low_byte, sign_extend8, sign_extend_byte, to_bits8,
    to_bits16, word_from,
};

verus! {

/// Whether a jump variant is decidable from the two tracked flags, and if
/// so whether it is taken in the given state. The variants that depend on
/// untracked flags or on the count register have no answer here.
pub open spec fn spec_jump_taken(s: MachineView, v: ConditionalJumpVariant) -> Option<bool> {
    match v {
        ConditionalJumpVariant::JeJz => Some(s.zero),
        ConditionalJumpVariant::JneJnz => Some(!s.zero),
        ConditionalJumpVariant::Js => Some(s.sign),
        ConditionalJumpVariant::Jns => Some(!s.sign),
        _ => None,
    }
}

/// The move transition: `s0` is the pre-state the sources are read from,
/// `s1` the state with the instruction pointer already advanced, which the
/// writes apply to. Register pairs must agree in width; memory operands
/// other than a direct address are not evaluated; a 16-bit memory access
/// at the last byte of the address space would leave the modeled space.
pub open spec fn spec_step_move(
    s0: MachineView,
    s1: MachineView,
    dest: Operand,
    src: Operand,
) -> Result<MachineView, ExecError> {
    match (dest, src) {
        (Operand::EffectiveAddress(_), _) => Err(ExecError::UnsupportedOperation),
        (_, Operand::EffectiveAddress(_)) => Err(ExecError::UnsupportedOperation),
        (Operand::Register(d), Operand::Register(r)) => if reg_is_wide(d) == reg_is_wide(r) {
            Ok(spec_reg_write(s1, d, spec_reg_value(s0, r)))
        } else {
            Err(ExecError::TypeMismatch)
        },
        (Operand::Register(d), Operand::ImmediateValue(ImmediateValue::SixteenBits(v))) => if
        reg_is_wide(d) {
            Ok(spec_reg_write(s1, d, to_bits16(v)))
        } else {
            Err(ExecError::TypeMismatch)
        },
        (Operand::Register(d), Operand::ImmediateValue(ImmediateValue::EightBits(v))) => if
        !reg_is_wide(d) {
            Ok(spec_reg_write(s1, d, to_bits16(v as i16)))
        } else {
            Err(ExecError::TypeMismatch)
        },
        (Operand::Register(d), Operand::Address(a)) => if reg_is_wide(d) {
            if a < 0xFFFF {
                Ok(spec_reg_write(s1, d, word_from(s0.mem[a as int], s0.mem[a + 1])))
            } else {
                Err(ExecError::UnsupportedOperation)
            }
        } else {
            Ok(spec_reg_write(s1, d, sign_extend8(s0.mem[a as int])))
        },
        (Operand::Address(a), Operand::ImmediateValue(ImmediateValue::SixteenBits(v))) => if a
            < 0xFFFF {
            Ok(
                MachineView {
                    mem: s1.mem.update(a as int, low_byte(to_bits16(v))).update(
                        a + 1,
                        high_byte(to_bits16(v)),
                    ),
                    ..s1
                },
            )
        } else {
            Err(ExecError::UnsupportedOperation)
        },
        (Operand::Address(a), Operand::ImmediateValue(ImmediateValue::EightBits(v))) => Ok(
            MachineView { mem: s1.mem.update(a as int, to_bits8(v)), ..s1 },
        ),
        (Operand::Address(a), Operand::Register(r)) => if reg_is_wide(r) {
            if a < 0xFFFF {
                Ok(
                    MachineView {
                        mem: s1.mem.update(a as int, low_byte(spec_reg_value(s0, r))).update(
                            a + 1,
                            high_byte(spec_reg_value(s0, r)),
                        ),
                        ..s1
                    },
                )
            } else {
                Err(ExecError::UnsupportedOperation)
            }
        } else {
            Ok(
                MachineView {
                    mem: s1.mem.update(a as int, low_byte(spec_reg_value(s0, r))),
                    ..s1
                },
            )
        },
        (Operand::Address(_), Operand::Address(_)) => Err(ExecError::TypeMismatch),
        (Operand::ImmediateValue(_), _) => Err(ExecError::TypeMismatch),
    }
}

/// The arithmetic transition: both operands are read from `s0`, the 16-bit
/// result of the family operation sets the Zero and Sign flags, and for
/// Add and Subtract the result is written back to the destination
/// register, which compares computed but did not store.
pub open spec fn spec_step_arith(
    s0: MachineView,
    s1: MachineView,
    family: ArithmeticFamily,
    dest: Operand,
    src: Operand,
) -> Result<MachineView, ExecError> {
    match spec_operand_value(s0, dest) {
        Err(e) => Err(e),
        Ok(dv) => match spec_operand_value(s0, src) {
            Err(e) => Err(e),
            Ok(sv) => {
                let r = match family {
                    ArithmeticFamily::Add => dv.wrapping_add(sv),
                    ArithmeticFamily::Sub => dv.wrapping_sub(sv),
                    ArithmeticFamily::Cmp => dv.wrapping_sub(sv),
                };
                let s2 = MachineView { zero: r == 0, sign: r >= 0x8000, ..s1 };
                match family {
                    ArithmeticFamily::Cmp => Ok(s2),
                    _ => match dest {
                        Operand::Register(rd) => Ok(spec_reg_write(s2, rd, r)),
                        _ => Err(ExecError::TypeMismatch),
                    },
                }
            },
        },
    }
}

/// The conditional-jump transition: the variant must be decidable from the
/// tracked flags, the only operand is the signed displacement, and a taken
/// jump adds it to the address of the next sequential instruction.
pub open spec fn spec_step_jump(
    s0: MachineView,
    s1: MachineView,
    variant: ConditionalJumpVariant,
    dest: Option<Operand>,
) -> Result<MachineView, ExecError> {
    match spec_jump_taken(s0, variant) {
        None => Err(ExecError::UnsupportedOperation),
        Some(taken) => match dest {
            Some(Operand::ImmediateValue(imm)) => {
                let off = match imm {
                    ImmediateValue::EightBits(v) => to_bits16(v as i16),
                    ImmediateValue::SixteenBits(v) => to_bits16(v),
                };
                if taken {
                    Ok(MachineView { ip: s1.ip.wrapping_add(off), ..s1 })
                } else {
                    Ok(s1)
                }
            },
            _ => Err(ExecError::TypeMismatch),
        },
    }
}

/// The whole transition an instruction makes on the machine state, or the
/// error that leaves the state untouched. The instruction pointer advances
/// by the instruction's length before the body applies, so a jump target
/// is relative to the next sequential instruction.
pub open spec fn spec_step(s: MachineView, inst: Instruction) -> Result<MachineView, ExecError> {
    let s1 = MachineView { ip: s.ip.wrapping_add(inst.total_bytes as u16), ..s };
    match inst.opcode {
        Opcode::Move { variant: _ } => match (inst.destination, inst.source) {
            (Some(dest), Some(src)) => spec_step_move(s, s1, dest, src),
            _ => Err(ExecError::TypeMismatch),
        },
        Opcode::Arithmetic { variant: _, family } => match (inst.destination, inst.source) {
            (Some(dest), Some(src)) => spec_step_arith(s, s1, family, dest, src),
            _ => Err(ExecError::TypeMismatch),
        },
        Opcode::ConditionalJump { variant } => spec_step_jump(s, s1, variant, inst.destination),
        Opcode::NotImplemented => Err(ExecError::UnsupportedOperation),
    }
}

/// Adding and subtracting back a 16-bit value under wrapping arithmetic
/// cancels.
proof fn lemma_wrap_cancel(x: u16, y: u16)
    ensures
        (x.wrapping_add(y)).wrapping_sub(y) == x,
{
    assert((x.wrapping_add(y)).wrapping_sub(y) == x) by (bit_vector);
}

/// The half-register cancellation: a byte run through sign extension, a
/// wrapping addition, truncation to its low byte and the same steps with
/// the subtraction comes back unchanged.
proof fn lemma_half_add_sub_cancel(b: u8, w: u16)
    ensures
        low_byte(sign_extend8(low_byte(sign_extend8(b).wrapping_add(w))).wrapping_sub(w)) == b,
{
    assert(low_byte(sign_extend8(low_byte(sign_extend8(b).wrapping_add(w))).wrapping_sub(w))
        == b) by (bit_vector);
}

/// Executing Add and a matching Subtract with the same immediate on the
/// same register always succeeds, restores every register and memory cell
/// to its original value, advances the instruction pointer past both
/// instructions, and leaves the Zero and Sign flags reflecting the second
/// computation only.
#[verifier::rlimit(100)]
pub proof fn lemma_add_then_sub_restores(
    s: MachineView,
    r: Register,
    imm: ImmediateValue,
    add_variant: crate::inst::ArithmeticVariant,
    sub_variant: crate::inst::ArithmeticVariant,
    add_len: u8,
    sub_len: u8,
)
    ensures
        ({
            let add_inst = Instruction {
                opcode: Opcode::Arithmetic {
                    variant: add_variant,
                    family: ArithmeticFamily::Add,
                },
                destination: Some(Operand::Register(r)),
                source: Some(Operand::ImmediateValue(imm)),
                total_bytes: add_len,
            };
            let sub_inst = Instruction {
                opcode: Opcode::Arithmetic {
                    variant: sub_variant,
                    family: ArithmeticFamily::Sub,
                },
                destination: Some(Operand::Register(r)),
                source: Some(Operand::ImmediateValue(imm)),
                total_bytes: sub_len,
            };
            let w = spec_operand_value(s, Operand::ImmediateValue(imm))->Ok_0;
            &&& spec_step(s, add_inst) is Ok
            &&& spec_step(spec_step(s, add_inst)->Ok_0, sub_inst) is Ok
            &&& ({
                let s_mid = spec_step(s, add_inst)->Ok_0;
                let s_end = spec_step(s_mid, sub_inst)->Ok_0;
                let second = spec_reg_value(s_mid, r).wrapping_sub(w);
                s_end == (MachineView {
                    zero: second == 0,
                    sign: second >= 0x8000,
                    ip: s.ip.wrapping_add(add_len as u16).wrapping_add(sub_len as u16),
                    ..s
                })
            })
        }),
{
    let add_inst = Instruction {
        opcode: Opcode::Arithmetic { variant: add_variant, family: ArithmeticFamily::Add },
        destination: Some(Operand::Register(r)),
        source: Some(Operand::ImmediateValue(imm)),
        total_bytes: add_len,
    };
    let sub_inst = Instruction {
        opcode: Opcode::Arithmetic { variant: sub_variant, family: ArithmeticFamily::Sub },
        destination: Some(Operand::Register(r)),
        source: Some(Operand::ImmediateValue(imm)),
        total_bytes: sub_len,
    };
    let w = spec_operand_value(s, Operand::ImmediateValue(imm))->Ok_0;
    let v0 = spec_reg_value(s, r);
    let r1 = v0.wrapping_add(w);
    let s1 = MachineView { ip: s.ip.wrapping_add(add_len as u16), ..s };
    let s2 = MachineView { zero: r1 == 0, sign: r1 >= 0x8000, ..s1 };
    assert(spec_step(s, add_inst) == Ok::<MachineView, ExecError>(spec_reg_write(s2, r, r1)));
    let s_mid = spec_step(s, add_inst)->Ok_0;
    let v1 = spec_reg_value(s_mid, r);
    let r2 = v1.wrapping_sub(w);
    let s3 = MachineView { ip: s_mid.ip.wrapping_add(sub_len as u16), ..s_mid };
    let s4 = MachineView { zero: r2 == 0, sign: r2 >= 0x8000, ..s3 };
    assert(spec_step(s_mid, sub_inst) == Ok::<MachineView, ExecError>(spec_reg_write(s4, r, r2)));
    let s_end = spec_step(s_mid, sub_inst)->Ok_0;
    if reg_is_wide(r) {
        lemma_wrap_cancel(spec_cell_of(s, r), w);
        assert(s_end =~= (MachineView {
            zero: r2 == 0,
            sign: r2 >= 0x8000,
            ip: s.ip.wrapping_add(add_len as u16).wrapping_add(sub_len as u16),
            ..s
        }));
    } else if reg_is_low_half(r) {
        lemma_half_add_sub_cancel(low_byte(spec_cell_of(s, r)), w);
        assert(s_end =~= (MachineView {
            zero: r2 == 0,
            sign: r2 >= 0x8000,
            ip: s.ip.wrapping_add(add_len as u16).wrapping_add(sub_len as u16),
            ..s
        }));
    } else {
        lemma_half_add_sub_cancel(high_byte(spec_cell_of(s, r)), w);
        assert(s_end =~= (MachineView {
            zero: r2 == 0,
            sign: r2 >= 0x8000,
            ip: s.ip.wrapping_add(add_len as u16).wrapping_add(sub_len as u16),
            ..s
        }));
    }
}

impl Emulator {
    /// Reads the 16-bit bit pattern a register name evaluates to.
    fn register_value_bits(&self, register: Register) -> (r: u16)
        ensures
            r == spec_reg_value(self@, register),
    {
        match register {
            Register::AX => self.registers.reg_a.0,
            Register::BX => self.registers.reg_b.0,
            Register::CX => self.registers.reg_c.0,
            Register::DX => self.registers.reg_d.0,
            Register::SP => self.registers.reg_sp.0,
            Register::BP => self.registers.reg_bp.0,
            Register::SI => self.registers.reg_si.0,
            Register::DI => self.registers.reg_di.0,
            Register::AL => sign_extend_byte((self.registers.reg_a.0 % 0x100) as u8),
            Register::BL => sign_extend_byte((self.registers.reg_b.0 % 0x100) as u8),
            Register::CL => sign_extend_byte((self.registers.reg_c.0 % 0x100) as u8),
            Register::DL => sign_extend_byte((self.registers.reg_d.0 % 0x100) as u8),
            Register::AH => sign_extend_byte((self.registers.reg_a.0 / 0x100) as u8),
            Register::BH => sign_extend_byte((self.registers.reg_b.0 / 0x100) as u8),
            Register::CH => sign_extend_byte((self.registers.reg_c.0 / 0x100) as u8),
            Register::DH => sign_extend_byte((self.registers.reg_d.0 / 0x100) as u8),
        }
    }

    /// Writes a 16-bit pattern to a register name per the aliasing rules:
    /// a 16-bit name takes the whole pattern, an 8-bit name takes the low
    /// byte into its half of the cell.
    fn write_register_bits(&mut self, register: Register, value: u16)
        ensures
            final(self)@ == spec_reg_write(old(self)@, register, value),
            final(self).wf() == old(self).wf(),
    {
        match register {
            Register::AX => {
                self.registers.reg_a.0 = value;
            },
            Register::BX => {
                self.registers.reg_b.0 = value;
            },
            Register::CX => {
                self.registers.reg_c.0 = value;
            },
            Register::DX => {
                self.registers.reg_d.0 = value;
            },
            Register::SP => {
                self.registers.reg_sp.0 = value;
            },
            Register::BP => {
                self.registers.reg_bp.0 = value;
            },
            Register::SI => {
                self.registers.reg_si.0 = value;
            },
            Register::DI => {
                self.registers.reg_di.0 = value;
            },
            Register::AL => {
                self.registers.reg_a.0 = self.registers.reg_a.0 / 0x100 * 0x100 + value % 0x100;
            },
            Register::BL => {
                self.registers.reg_b.0 = self.registers.reg_b.0 / 0x100 * 0x100 + value % 0x100;
            },
            Register::CL => {
                self.registers.reg_c.0 = self.registers.reg_c.0 / 0x100 * 0x100 + value % 0x100;
            },
            Register::DL => {
                self.registers.reg_d.0 = self.registers.reg_d.0 / 0x100 * 0x100 + value % 0x100;
            },
            Register::AH => {
                self.registers.reg_a.0 = (value % 0x100) * 0x100 + self.registers.reg_a.0 % 0x100;
            },
            Register::BH => {
                self.registers.reg_b.0 = (value % 0x100) * 0x100 + self.registers.reg_b.0 % 0x100;
            },
            Register::CH => {
                self.registers.reg_c.0 = (value % 0x100) * 0x100 + self.registers.reg_c.0 % 0x100;
            },
            Register::DH => {
                self.registers.reg_d.0 = (value % 0x100) * 0x100 + self.registers.reg_d.0 % 0x100;
            },
        }
    }

    /// Evaluates an operand to its 16-bit bit pattern.
    fn operand_value_bits(&self, operand: &Operand) -> (r: Result<u16, ExecError>)
        ensures
            r == spec_operand_value(self@, *operand),
    {
        match operand {
            Operand::ImmediateValue(ImmediateValue::EightBits(v)) => Ok(i16_to_bits(*v as i16)),
            Operand::ImmediateValue(ImmediateValue::SixteenBits(v)) => Ok(i16_to_bits(*v)),
            Operand::Register(r) => Ok(self.register_value_bits(*r)),
            _ => Err(ExecError::UnsupportedOperation),
        }
    }

    /// Applies one decoded instruction: advances the instruction pointer
    /// and performs the register, flag and memory writes the instruction
    /// implies, exactly as `spec_step` states. On an error the machine
    /// state is left entirely unchanged: an instruction either fully
    /// applies or does not apply at all.
    pub fn execute_instruction(&mut self, instruction: &Instruction) -> (r: Result<(), ExecError>)
        requires
            old(self).wf(),
        ensures
            final(self).wf(),
            spec_step(old(self)@, *instruction) matches Ok(v) ==> r == Ok::<(), ExecError>(())
                && final(self)@ == v,
            spec_step(old(self)@, *instruction) matches Err(e) ==> r == Err::<(), ExecError>(e)
                && final(self)@ == old(self)@,
    {
        let new_ip: u16 = self.instruction_pointer.wrapping_add(instruction.total_bytes as u16);
        match instruction.opcode {
            Opcode::NotImplemented => Err(ExecError::UnsupportedOperation),
            Opcode::Move { variant: _ } => {
                let (dest, src) = match (&instruction.destination, &instruction.source) {
                    (Some(d), Some(s)) => (d, s),
                    _ => {
                        return Err(ExecError::TypeMismatch);
                    },
                };
                self.execute_move(new_ip, dest, src)
            },
            Opcode::Arithmetic { variant: _, family } => {
                let (dest, src) = match (&instruction.destination, &instruction.source) {
                    (Some(d), Some(s)) => (d, s),
                    _ => {
                        return Err(ExecError::TypeMismatch);
                    },
                };
                self.execute_arithmetic(new_ip, family, dest, src)
            },
            Opcode::ConditionalJump { variant } => {
                let taken = match variant {
                    ConditionalJumpVariant::JeJz => self.flags.zero,
                    ConditionalJumpVariant::JneJnz => !self.flags.zero,
                    ConditionalJumpVariant::Js => self.flags.sign,
                    ConditionalJumpVariant::Jns => !self.flags.sign,
                    _ => {
                        return Err(ExecError::UnsupportedOperation);
                    },
                };
                let imm = match &instruction.destination {
                    Some(Operand::ImmediateValue(imm)) => imm,
                    _ => {
                        return Err(ExecError::TypeMismatch);
                    },
                };
                let off: u16 = match imm {
                    ImmediateValue::EightBits(v) => i16_to_bits(*v as i16),
                    ImmediateValue::SixteenBits(v) => i16_to_bits(*v),
                };
                self.instruction_pointer = if taken {
                    new_ip.wrapping_add(off)
                } else {
                    new_ip
                };
                Ok(())
            },
        }
    }

    fn execute_move(&mut self, new_ip: u16, dest: &Operand, src: &Operand) -> (r: Result<
        (),
        ExecError,
    >)
        requires
            old(self).wf(),
        ensures
            final(self).wf(),
            ({
                let s1 = MachineView { ip: new_ip, ..old(self)@ };
                let step = spec_step_move(old(self)@, s1, *dest, *src);
                &&& (step matches Ok(v) ==> r == Ok::<(), ExecError>(()) && final(self)@ == v)
                &&& (step matches Err(e) ==> r == Err::<(), ExecError>(e) && final(self)@ == old(
                    self,
                )@)
            }),
    {
        match (dest, src) {
            (Operand::EffectiveAddress(_), _) => Err(ExecError::UnsupportedOperation),
            (_, Operand::EffectiveAddress(_)) => Err(ExecError::UnsupportedOperation),
            (Operand::Register(d), Operand::Register(s)) => {
                if register_is_wide(*d) != register_is_wide(*s) {
                    return Err(ExecError::TypeMismatch);
                }
                let v = self.register_value_bits(*s);
                self.instruction_pointer = new_ip;
                self.write_register_bits(*d, v);
                Ok(())
            },
            (Operand::Register(d), Operand::ImmediateValue(ImmediateValue::SixteenBits(v))) => {
                if !register_is_wide(*d) {
                    return Err(ExecError::TypeMismatch);
                }
                let bits = i16_to_bits(*v);
                self.instruction_pointer = new_ip;
                self.write_register_bits(*d, bits);
                Ok(())
            },
            (Operand::Register(d), Operand::ImmediateValue(ImmediateValue::EightBits(v))) => {
                if register_is_wide(*d) {
                    return Err(ExecError::TypeMismatch);
                }
                let bits = i16_to_bits(*v as i16);
                self.instruction_pointer = new_ip;
                self.write_register_bits(*d, bits);
                Ok(())
            },
            (Operand::Register(d), Operand::Address(a)) => {
                if register_is_wide(*d) {
                    if *a < 0xFFFF {
                        let w = self.load_from_memory(*a as usize);
                        self.instruction_pointer = new_ip;
                        self.write_register_bits(*d, w);
                        Ok(())
                    } else {
                        Err(ExecError::UnsupportedOperation)
                    }
                } else {
                    let b: u8 = self.memory[*a as usize];
                    let w = sign_extend_byte(b);
                    self.instruction_pointer = new_ip;
                    self.write_register_bits(*d, w);
                    Ok(())
                }
            },
            (Operand::Address(a), Operand::ImmediateValue(ImmediateValue::SixteenBits(v))) => {
                if *a < 0xFFFF {
                    let bits = i16_to_bits(*v);
                    self.instruction_pointer = new_ip;
                    self.store_into_memory(*a as usize, bits);
                    Ok(())
                } else {
                    Err(ExecError::UnsupportedOperation)
                }
            },
            (Operand::Address(a), Operand::ImmediateValue(ImmediateValue::EightBits(v))) => {
                let b = i8_to_bits(*v);
                self.instruction_pointer = new_ip;
                self.memory[*a as usize] = b;
                Ok(())
            },
            (Operand::Address(a), Operand::Register(s)) => {
                if register_is_wide(*s) {
                    if *a < 0xFFFF {
                        let v = self.register_value_bits(*s);
                        self.instruction_pointer = new_ip;
                        self.store_into_memory(*a as usize, v);
                        Ok(())
                    } else {
                        Err(ExecError::UnsupportedOperation)
                    }
                } else {
                    let v = self.register_value_bits(*s);
                    self.instruction_pointer = new_ip;
                    self.memory[*a as usize] = (v % 0x100) as u8;
                    Ok(())
                }
            },
            (Operand::Address(_), Operand::Address(_)) => Err(ExecError::TypeMismatch),
            (Operand::ImmediateValue(_), _) => Err(ExecError::TypeMismatch),
        }
    }

    fn execute_arithmetic(
        &mut self,
        new_ip: u16,
        family: ArithmeticFamily,
        dest: &Operand,
        src: &Operand,
    ) -> (r: Result<(), ExecError>)
        requires
            old(self).wf(),
        ensures
            final(self).wf(),
            ({
                let s1 = MachineView { ip: new_ip, ..old(self)@ };
                let step = spec_step_arith(old(self)@, s1, family, *dest, *src);
                &&& (step matches Ok(v) ==> r == Ok::<(), ExecError>(()) && final(self)@ == v)
                &&& (step matches Err(e) ==> r == Err::<(), ExecError>(e) && final(self)@ == old(
                    self,
                )@)
            }),
    {
        let dv: u16 = match self.operand_value_bits(dest) {
            Ok(v) => v,
            Err(e) => {
                return Err(e);
            },
        };
        let sv: u16 = match self.operand_value_bits(src) {
            Ok(v) => v,
            Err(e) => {
                return Err(e);
            },
        };
        let result: u16 = match family {
            ArithmeticFamily::Add => dv.wrapping_add(sv),
            ArithmeticFamily::Sub => dv.wrapping_sub(sv),
            ArithmeticFamily::Cmp => dv.wrapping_sub(sv),
        };
        let store = match family {
            ArithmeticFamily::Cmp => false,
            _ => true,
        };
        if store {
            let rd = match dest {
                Operand::Register(rd) => *rd,
                _ => {
                    return Err(ExecError::TypeMismatch);
                },
            };
            self.instruction_pointer = new_ip;
            self.flags.zero = result == 0;
            self.flags.sign = result >= 0x8000;
            self.write_register_bits(rd, result);
            Ok(())
        } else {
            self.instruction_pointer = new_ip;
            self.flags.zero = result == 0;
            self.flags.sign = result >= 0x8000;
            Ok(())
        }
    }
}

} // verus!
