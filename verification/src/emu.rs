//! The simulated machine state: four aliasable general registers, four
//! whole-register-only index/pointer registers, the Zero and Sign flags, a
//! 64 KiB byte-addressable memory and the instruction pointer, with typed
//! accessors that encode the register-aliasing rules.

use vstd::prelude::*;

use crate::ExecError;
use crate::inst::{ImmediateValue, Operand, Register, reg_is_wide};
use crate::values::{
    bits_to_i8, bits_to_i16, high_byte, i8_to_bits, i16_to_bits, low_byte, sign_extend8,
    to_bits8, to_bits16, to_signed8, to_signed16, with_high_byte, with_low_byte, word_from,
    word_from_bytes,
};

verus! {

/// The number of bytes in the modeled address space.
pub const MEMORY_SIZE: usize = 0x10000;

/// The mathematical value of a machine state: the bit patterns of the
/// eight 16-bit storage cells, the two tracked flags, the instruction
/// pointer and the memory contents.
#[verifier::ext_equal]
pub ghost struct MachineView {
    pub a: u16,
    pub b: u16,
    pub c: u16,
    pub d: u16,
    pub sp: u16,
    pub bp: u16,
    pub si: u16,
    pub di: u16,
    pub zero: bool,
    pub sign: bool,
    pub ip: u16,
    pub mem: Seq<u8>,
}

/// The 16-bit storage cell behind a register name: each 8-bit name shares
/// the cell of the 16-bit register it overlays.
pub open spec fn spec_cell_of(s: MachineView, r: Register) -> u16 {
    match r {
        Register::AX | Register::AL | Register::AH => s.a,
        Register::BX | Register::BL | Register::BH => s.b,
        Register::CX | Register::CL | Register::CH => s.c,
        Register::DX | Register::DL | Register::DH => s.d,
        Register::SP => s.sp,
        Register::BP => s.bp,
        Register::SI => s.si,
        Register::DI => s.di,
    }
}

/// The state with the storage cell behind a register name replaced.
pub open spec fn spec_with_cell(s: MachineView, r: Register, cell: u16) -> MachineView {
    match r {
        Register::AX | Register::AL | Register::AH => MachineView { a: cell, ..s },
        Register::BX | Register::BL | Register::BH => MachineView { b: cell, ..s },
        Register::CX | Register::CL | Register::CH => MachineView { c: cell, ..s },
        Register::DX | Register::DL | Register::DH => MachineView { d: cell, ..s },
        Register::SP => MachineView { sp: cell, ..s },
        Register::BP => MachineView { bp: cell, ..s },
        Register::SI => MachineView { si: cell, ..s },
        Register::DI => MachineView { di: cell, ..s },
    }
}

/// Whether a register name is an 8-bit view of the low half of its cell.
pub open spec fn reg_is_low_half(r: Register) -> bool {
    match r {
        Register::AL | Register::BL | Register::CL | Register::DL => true,
        _ => false,
    }
}

/// Whether a register name is an 8-bit view of the high half of its cell.
pub open spec fn reg_is_high_half(r: Register) -> bool {
    match r {
        Register::AH | Register::BH | Register::CH | Register::DH => true,
        _ => false,
    }
}

/// The 16-bit value a register name reads as: the whole cell for a 16-bit
/// name, and the sign-extended half for an 8-bit name.
pub open spec fn spec_reg_value(s: MachineView, r: Register) -> u16 {
    if reg_is_wide(r) {
        spec_cell_of(s, r)
    } else if reg_is_low_half(r) {
        sign_extend8(low_byte(spec_cell_of(s, r)))
    } else {
        sign_extend8(high_byte(spec_cell_of(s, r)))
    }
}

/// The state after writing a 16-bit value to a register name: a 16-bit
/// name takes the whole value, an 8-bit name takes the low byte of the
/// value into its half of the cell and leaves the other half untouched.
pub open spec fn spec_reg_write(s: MachineView, r: Register, v: u16) -> MachineView {
    if reg_is_wide(r) {
        spec_with_cell(s, r, v)
    } else if reg_is_low_half(r) {
        spec_with_cell(s, r, with_low_byte(spec_cell_of(s, r), low_byte(v)))
    } else {
        spec_with_cell(s, r, with_high_byte(spec_cell_of(s, r), low_byte(v)))
    }
}

/// The 16-bit pattern an operand evaluates to in a state: immediates give
/// their two's-complement pattern, an 8-bit immediate sign-extended;
/// registers read per the aliasing rules; memory operands are not
/// evaluated by this engine.
pub open spec fn spec_operand_value(s: MachineView, op: Operand) -> Result<u16, ExecError> {
    match op {
        Operand::ImmediateValue(ImmediateValue::EightBits(v)) => Ok(to_bits16(v as i16)),
        Operand::ImmediateValue(ImmediateValue::SixteenBits(v)) => Ok(to_bits16(v)),
        Operand::Register(r) => Ok(spec_reg_value(s, r)),
        _ => Err(ExecError::UnsupportedOperation),
    }
}

/// One 16-bit storage cell with 8-bit views of its low and high halves.
/// Writing a half preserves the other half; writing the whole register
/// overwrites both.
#[derive(Clone, Copy, Debug, PartialEq, Eq, Structural)]
pub struct GeneralRegister(pub u16);

impl GeneralRegister {
    /// Reads the high half as a signed byte.
    pub fn get_high(&self) -> (r: i8)
        ensures
            r == to_signed8(high_byte(self.0)),
    {
        bits_to_i8((self.0 / 0x100) as u8)
    }

    /// Reads the low half as a signed byte.
    pub fn get_low(&self) -> (r: i8)
        ensures
            r == to_signed8(low_byte(self.0)),
    {
        bits_to_i8((self.0 % 0x100) as u8)
    }

    /// Reads the whole register as a signed 16-bit value.
    pub fn get(&self) -> (r: i16)
        ensures
            r == to_signed16(self.0),
    {
        bits_to_i16(self.0)
    }

    /// Writes the high half, preserving the low half.
    pub fn set_high(&mut self, value: i8)
        ensures
            final(self).0 == with_high_byte(old(self).0, to_bits8(value)),
    {
        self.0 = (i8_to_bits(value) as u16) * 0x100 + self.0 % 0x100;
    }

    /// Writes the low half, preserving the high half.
    pub fn set_low(&mut self, value: i8)
        ensures
            final(self).0 == with_low_byte(old(self).0, to_bits8(value)),
    {
        self.0 = self.0 / 0x100 * 0x100 + (i8_to_bits(value) as u16);
    }

    /// Writes the whole register, overwriting both halves.
    pub fn set(&mut self, value: i16)
        ensures
            final(self).0 == to_bits16(value),
    {
        self.0 = i16_to_bits(value);
    }
}

/// A 16-bit register with no 8-bit views: only whole-register access.
#[derive(Clone, Copy, Debug, PartialEq, Eq, Structural)]
pub struct SpecialRegister(pub u16);

impl SpecialRegister {
    /// Reads the register as a signed 16-bit value.
    pub fn get(&self) -> (r: i16)
        ensures
            r == to_signed16(self.0),
    {
        bits_to_i16(self.0)
    }

    /// Writes the register.
    pub fn set(&mut self, value: i16)
        ensures
            final(self).0 == to_bits16(value),
    {
        self.0 = i16_to_bits(value);
    }
}

/// The register file: the four aliasable general registers and the four
/// index/pointer registers.
#[derive(Clone, Copy, Debug, PartialEq, Eq, Structural)]
pub struct EmulatorRegisters {
    pub reg_a: GeneralRegister,
    pub reg_b: GeneralRegister,
    pub reg_c: GeneralRegister,
    pub reg_d: GeneralRegister,
    pub reg_sp: SpecialRegister,
    pub reg_bp: SpecialRegister,
    pub reg_si: SpecialRegister,
    pub reg_di: SpecialRegister,
}

impl EmulatorRegisters {
    /// All registers zero.
    pub fn new() -> (r: EmulatorRegisters)
        ensures
            r.reg_a.0 == 0 && r.reg_b.0 == 0 && r.reg_c.0 == 0 && r.reg_d.0 == 0,
            r.reg_sp.0 == 0 && r.reg_bp.0 == 0 && r.reg_si.0 == 0 && r.reg_di.0 == 0,
    {
        EmulatorRegisters {
            reg_a: GeneralRegister(0),
            reg_b: GeneralRegister(0),
            reg_c: GeneralRegister(0),
            reg_d: GeneralRegister(0),
            reg_sp: SpecialRegister(0),
            reg_bp: SpecialRegister(0),
            reg_si: SpecialRegister(0),
            reg_di: SpecialRegister(0),
        }
    }
}

/// The two condition flags this machine tracks.
#[derive(Clone, Copy, Debug, PartialEq, Eq, Structural)]
pub struct EmulatorFlags {
    pub zero: bool,
    pub sign: bool,
}

impl EmulatorFlags {
    /// Both flags clear.
    pub fn new() -> (r: EmulatorFlags)
        ensures
            !r.zero && !r.sign,
    {
        EmulatorFlags { zero: false, sign: false }
    }
}

/// The whole machine state owned by one run of the execution engine.
pub struct Emulator {
    pub registers: EmulatorRegisters,
    pub flags: EmulatorFlags,
    pub instruction_pointer: u16,
    pub memory: Vec<u8>,
}

impl View for Emulator {
    type V = MachineView;

    open spec fn view(&self) -> MachineView {
        MachineView {
            a: self.registers.reg_a.0,
            b: self.registers.reg_b.0,
            c: self.registers.reg_c.0,
            d: self.registers.reg_d.0,
            sp: self.registers.reg_sp.0,
            bp: self.registers.reg_bp.0,
            si: self.registers.reg_si.0,
            di: self.registers.reg_di.0,
            zero: self.flags.zero,
            sign: self.flags.sign,
            ip: self.instruction_pointer,
            mem: self.memory@,
        }
    }
}

impl Emulator {
    /// Well-formedness: the memory covers exactly the modeled address
    /// space.
    pub open spec fn wf(&self) -> bool {
        self.memory@.len() == MEMORY_SIZE
    }

    /// A fresh machine: all registers, flags, memory cells and the
    /// instruction pointer zero.
    pub fn new() -> (r: Emulator)
        ensures
            r.wf(),
            r@ == (MachineView {
                a: 0,
                b: 0,
                c: 0,
                d: 0,
                sp: 0,
                bp: 0,
                si: 0,
                di: 0,
                zero: false,
                sign: false,
                ip: 0,
                mem: Seq::new(MEMORY_SIZE as nat, |i: int| 0u8),
            }),
    {
        let mut memory: Vec<u8> = Vec::new();
        while memory.len() < MEMORY_SIZE
            invariant
                memory@.len() <= MEMORY_SIZE,
                forall|i: int| 0 <= i < memory@.len() ==> memory@[i] == 0u8,
            decreases MEMORY_SIZE - memory.len(),
        {
            memory.push(0);
        }
        proof {
            assert(memory@ =~= Seq::new(MEMORY_SIZE as nat, |i: int| 0u8));
        }
        Emulator {
            registers: EmulatorRegisters::new(),
            flags: EmulatorFlags::new(),
            instruction_pointer: 0,
            memory,
        }
    }

    /// Loads the little-endian 16-bit word at a memory address.
    pub fn load_from_memory(&self, from: usize) -> (r: u16)
        requires
            self.wf(),
            from + 1 < MEMORY_SIZE,
        ensures
            r == word_from(self@.mem[from as int], self@.mem[from + 1]),
    {
        let first_byte: u8 = self.memory[from];
        let second_byte: u8 = self.memory[from + 1];
        word_from_bytes(first_byte, second_byte)
    }

    /// Stores a 16-bit word at a memory address, low byte first.
    pub fn store_into_memory(&mut self, to: usize, value: u16)
        requires
            old(self).wf(),
            to + 1 < MEMORY_SIZE,
        ensures
            final(self).wf(),
            final(self)@ == (MachineView {
                mem: old(self)@.mem.update(to as int, low_byte(value)).update(
                    to + 1,
                    high_byte(value),
                ),
                ..old(self)@
            }),
    {
        self.memory[to] = (value % 0x100) as u8;
        self.memory[to + 1] = (value / 0x100) as u8;
    }

    /// Reads a whole 16-bit register. An 8-bit register name has no whole
    /// 16-bit reading and is refused.
    pub fn get_register(&self, register: Register) -> (r: Result<i16, ExecError>)
        ensures
            reg_is_wide(register) ==> r == Ok::<i16, ExecError>(
                to_signed16(spec_cell_of(self@, register)),
            ),
            !reg_is_wide(register) ==> r == Err::<i16, ExecError>(ExecError::UnsupportedOperation),
    {
        match register {
            Register::AX => Ok(self.registers.reg_a.get()),
            Register::BX => Ok(self.registers.reg_b.get()),
            Register::CX => Ok(self.registers.reg_c.get()),
            Register::DX => Ok(self.registers.reg_d.get()),
            Register::SP => Ok(self.registers.reg_sp.get()),
            Register::BP => Ok(self.registers.reg_bp.get()),
            Register::SI => Ok(self.registers.reg_si.get()),
            Register::DI => Ok(self.registers.reg_di.get()),
            _ => Err(ExecError::UnsupportedOperation),
        }
    }

    /// Reads the low half of an aliasable register. Only the four low-half
    /// names have one.
    pub fn get_register_low(&self, register: Register) -> (r: Result<i8, ExecError>)
        ensures
            reg_is_low_half(register) ==> r == Ok::<i8, ExecError>(
                to_signed8(low_byte(spec_cell_of(self@, register))),
            ),
            !reg_is_low_half(register) ==> r == Err::<i8, ExecError>(
                ExecError::UnsupportedOperation,
            ),
    {
        match register {
            Register::AL => Ok(self.registers.reg_a.get_low()),
            Register::BL => Ok(self.registers.reg_b.get_low()),
            Register::CL => Ok(self.registers.reg_c.get_low()),
            Register::DL => Ok(self.registers.reg_d.get_low()),
            _ => Err(ExecError::UnsupportedOperation),
        }
    }

    /// Reads the high half of an aliasable register. Only the four
    /// high-half names have one.
    pub fn get_register_high(&self, register: Register) -> (r: Result<i8, ExecError>)
        ensures
            reg_is_high_half(register) ==> r == Ok::<i8, ExecError>(
                to_signed8(high_byte(spec_cell_of(self@, register))),
            ),
            !reg_is_high_half(register) ==> r == Err::<i8, ExecError>(
                ExecError::UnsupportedOperation,
            ),
    {
        match register {
            Register::AH => Ok(self.registers.reg_a.get_high()),
            Register::BH => Ok(self.registers.reg_b.get_high()),
            Register::CH => Ok(self.registers.reg_c.get_high()),
            Register::DH => Ok(self.registers.reg_d.get_high()),
            _ => Err(ExecError::UnsupportedOperation),
        }
    }

    /// Writes a whole 16-bit register. An 8-bit register name is refused
    /// and the state is left unchanged.
    pub fn set_register(&mut self, register: Register, value: i16) -> (r: Result<(), ExecError>)
        ensures
            reg_is_wide(register) ==> r == Ok::<(), ExecError>(()) && final(self)@
                == spec_with_cell(old(self)@, register, to_bits16(value)),
            !reg_is_wide(register) ==> r == Err::<(), ExecError>(ExecError::UnsupportedOperation)
                && final(self)@ == old(self)@,
    {
        match register {
            Register::AX => {
                self.registers.reg_a.set(value);
                Ok(())
            },
            Register::BX => {
                self.registers.reg_b.set(value);
                Ok(())
            },
            Register::CX => {
                self.registers.reg_c.set(value);
                Ok(())
            },
            Register::DX => {
                self.registers.reg_d.set(value);
                Ok(())
            },
            Register::SP => {
                self.registers.reg_sp.set(value);
                Ok(())
            },
            Register::BP => {
                self.registers.reg_bp.set(value);
                Ok(())
            },
            Register::SI => {
                self.registers.reg_si.set(value);
                Ok(())
            },
            Register::DI => {
                self.registers.reg_di.set(value);
                Ok(())
            },
            _ => Err(ExecError::UnsupportedOperation),
        }
    }

    /// Writes the low half of an aliasable register, preserving the high
    /// half. Only the four low-half names can be written this way.
    pub fn set_register_low(&mut self, register: Register, value: i8) -> (r: Result<
        (),
        ExecError,
    >)
        ensures
            reg_is_low_half(register) ==> r == Ok::<(), ExecError>(()) && final(self)@
                == spec_with_cell(
                old(self)@,
                register,
                with_low_byte(spec_cell_of(old(self)@, register), to_bits8(value)),
            ),
            !reg_is_low_half(register) ==> r == Err::<(), ExecError>(
                ExecError::UnsupportedOperation,
            ) && final(self)@ == old(self)@,
    {
        match register {
            Register::AL => {
                self.registers.reg_a.set_low(value);
                Ok(())
            },
            Register::BL => {
                self.registers.reg_b.set_low(value);
                Ok(())
            },
            Register::CL => {
                self.registers.reg_c.set_low(value);
                Ok(())
            },
            Register::DL => {
                self.registers.reg_d.set_low(value);
                Ok(())
            },
            _ => Err(ExecError::UnsupportedOperation),
        }
    }

    /// Writes the high half of an aliasable register, preserving the low
    /// half. Only the four high-half names can be written this way.
    pub fn set_register_high(&mut self, register: Register, value: i8) -> (r: Result<
        (),
        ExecError,
    >)
        ensures
            reg_is_high_half(register) ==> r == Ok::<(), ExecError>(()) && final(self)@
                == spec_with_cell(
                old(self)@,
                register,
                with_high_byte(spec_cell_of(old(self)@, register), to_bits8(value)),
            ),
            !reg_is_high_half(register) ==> r == Err::<(), ExecError>(
                ExecError::UnsupportedOperation,
            ) && final(self)@ == old(self)@,
    {
        match register {
            Register::AH => {
                self.registers.reg_a.set_high(value);
                Ok(())
            },
            Register::BH => {
                self.registers.reg_b.set_high(value);
                Ok(())
            },
            Register::CH => {
                self.registers.reg_c.set_high(value);
                Ok(())
            },
            Register::DH => {
                self.registers.reg_d.set_high(value);
                Ok(())
            },
            _ => Err(ExecError::UnsupportedOperation),
        }
    }

    /// Evaluates an operand to the signed 16-bit value it reads as, per
    /// the register-aliasing and sign-extension rules. Memory operands are
    /// not evaluated by this engine.
    pub fn get_operand_value(&self, operand: &Operand) -> (r: Result<i16, ExecError>)
        ensures
            spec_operand_value(self@, *operand) matches Ok(u) ==> r == Ok::<i16, ExecError>(
                to_signed16(u),
            ),
            spec_operand_value(self@, *operand) matches Err(e) ==> r == Err::<i16, ExecError>(e),
    {
        match operand {
            Operand::ImmediateValue(ImmediateValue::EightBits(v)) => Ok(*v as i16),
            Operand::ImmediateValue(ImmediateValue::SixteenBits(v)) => Ok(*v),
            Operand::Register(r) => Ok(self.register_value(*r)),
            _ => Err(ExecError::UnsupportedOperation),
        }
    }

    /// Reads the 16-bit value behind any register name: the whole cell for
    /// a 16-bit name, the sign-extended half for an 8-bit name.
    pub fn register_value(&self, register: Register) -> (r: i16)
        ensures
            r == to_signed16(spec_reg_value(self@, register)),
    {
        match register {
            Register::AX => self.registers.reg_a.get(),
            Register::BX => self.registers.reg_b.get(),
            Register::CX => self.registers.reg_c.get(),
            Register::DX => self.registers.reg_d.get(),
            Register::SP => self.registers.reg_sp.get(),
            Register::BP => self.registers.reg_bp.get(),
            Register::SI => self.registers.reg_si.get(),
            Register::DI => self.registers.reg_di.get(),
            Register::AL => self.registers.reg_a.get_low() as i16,
            Register::BL => self.registers.reg_b.get_low() as i16,
            Register::CL => self.registers.reg_c.get_low() as i16,
            Register::DL => self.registers.reg_d.get_low() as i16,
            Register::AH => self.registers.reg_a.get_high() as i16,
            Register::BH => self.registers.reg_b.get_high() as i16,
            Register::CH => self.registers.reg_c.get_high() as i16,
            Register::DH => self.registers.reg_d.get_high() as i16,
        }
    }
}

} // verus!
