//! The structured form of a decoded instruction: registers, operands,
//! opcode families and the `Instruction` record itself.

use vstd::prelude::*;

verus! {

/// One of the sixteen register names: eight 16-bit registers and the eight
/// 8-bit views of the low and high halves of AX, BX, CX and DX.
#[derive(Clone, Copy, Debug, PartialEq, Eq, Structural)]
pub enum Register {
    AX,
    CX,
    DX,
    BX,
    SP,
    BP,
    SI,
    DI,
    AL,
    CL,
    DL,
    BL,
    AH,
    CH,
    DH,
    BH,
}

/// The operand width selected by the width bit of an encoding.
#[derive(Clone, Copy, Debug, PartialEq, Eq, Structural)]
pub enum RegisterSize {
    EightBits,
    SixteenBits,
}

/// A displacement following the addressing-mode byte, 8 or 16 bits wide.
#[derive(Clone, Copy, Debug, PartialEq, Eq, Structural)]
pub enum Displacement {
    EightBits(i8),
    SixteenBits(i16),
}

/// A memory reference built from a base register, an optional index
/// register and an optional displacement. The form with neither an index
/// nor a displacement and no base does not exist: that encoding is the
/// direct-address case, represented as `Operand::Address`.
#[derive(Clone, Copy, Debug, PartialEq, Eq, Structural)]
pub enum EffectiveAddress {
    JustRegister(Register),
    RegisterAndOffset(Register, Register),
    RegisterAndDisplacement(Register, Displacement),
    RegisterOffsetAndDisplacement(Register, Register, Displacement),
}

/// An immediate constant, 8 or 16 bits wide, signed.
#[derive(Clone, Copy, Debug, PartialEq, Eq, Structural)]
pub enum ImmediateValue {
    EightBits(i8),
    SixteenBits(i16),
}

/// A decoded source or destination location.
#[derive(Clone, Copy, Debug, PartialEq, Eq, Structural)]
pub enum Operand {
    /// A 16-bit absolute memory address.
    Address(u16),
    /// A memory reference computed from registers and a displacement.
    EffectiveAddress(EffectiveAddress),
    /// An immediate constant.
    ImmediateValue(ImmediateValue),
    /// A register.
    Register(Register),
}

/// The addressing pattern of a move instruction.
#[derive(Clone, Copy, Debug, PartialEq, Eq, Structural)]
pub enum MoveVariant {
    RegMemToFromReg,
    ImmToRegMem,
    ImmToReg,
    MemToAcc,
    AccToMem,
}

/// The operation of an arithmetic instruction.
#[derive(Clone, Copy, Debug, PartialEq, Eq, Structural)]
pub enum ArithmeticFamily {
    Add,
    Sub,
    Cmp,
}

/// The addressing pattern of an arithmetic instruction.
#[derive(Clone, Copy, Debug, PartialEq, Eq, Structural)]
pub enum ArithmeticVariant {
    RegMemAndRegEither,
    ImmRegMem,
    ImmAcc,
}

/// One of the conditional-jump forms, each a distinct single-byte opcode.
#[derive(Clone, Copy, Debug, PartialEq, Eq, Structural)]
pub enum ConditionalJumpVariant {
    JeJz,
    JlJnge,
    JleJng,
    JbJnae,
    JbeJna,
    JpJpe,
    Jo,
    Js,
    JneJnz,
    JnlJge,
    JnleJg,
    JnbJae,
    JnbeJa,
    JnpJpo,
    Jno,
    Jns,
    Loop,
    LoopzLoope,
    LoopnzLoopne,
    Jcxz,
}

/// The decoded instruction category together with its addressing-pattern
/// variant. Bytes the classifier cannot name become `NotImplemented`.
#[derive(Clone, Copy, Debug, PartialEq, Eq, Structural)]
#[allow(inconsistent_fields)]
pub enum Opcode {
    Move { variant: MoveVariant },
    Arithmetic { variant: ArithmeticVariant, family: ArithmeticFamily },
    ConditionalJump { variant: ConditionalJumpVariant },
    NotImplemented,
}

/// A fully decoded instruction. `total_bytes` is the number of stream bytes
/// consumed while building it, counting the opcode byte, the
/// addressing-mode byte and any displacement and immediate bytes.
#[derive(Clone, Copy, Debug, PartialEq, Eq, Structural)]
pub struct Instruction {
    pub opcode: Opcode,
    pub destination: Option<Operand>,
    pub source: Option<Operand>,
    pub total_bytes: u8,
}

impl Instruction {
    /// Packs the four parts of a decoded instruction into one record.
    pub fn new(
        opcode: Opcode,
        destination: Option<Operand>,
        source: Option<Operand>,
        total_bytes: u8,
    ) -> (r: Instruction)
        ensures
            r == (Instruction { opcode, destination, source, total_bytes }),
    {
        Instruction { opcode, destination, source, total_bytes }
    }
}

/// The instruction with its destination and source exchanged, as the
/// direction bit demands.
pub fn swap_operands(instruction: Instruction) -> (r: Instruction)
    ensures
        r.opcode == instruction.opcode,
        r.destination == instruction.source,
        r.source == instruction.destination,
        r.total_bytes == instruction.total_bytes,
{
    Instruction {
        opcode: instruction.opcode,
        destination: instruction.source,
        source: instruction.destination,
        total_bytes: instruction.total_bytes,
    }
}

/// Whether a register name denotes a full 16-bit register rather than an
/// 8-bit half view.
pub open spec fn reg_is_wide(r: Register) -> bool {
    match r {
        Register::AX | Register::CX | Register::DX | Register::BX => true,
        Register::SP | Register::BP | Register::SI | Register::DI => true,
        _ => false,
    }
}

/// The register named by a 3-bit field value under the given width, per the
/// fixed encoding table.
pub open spec fn spec_register_of(value: u8, wide: bool) -> Register {
    if wide {
        if value == 0 { Register::AX }
        else if value == 1 { Register::CX }
        else if value == 2 { Register::DX }
        else if value == 3 { Register::BX }
        else if value == 4 { Register::SP }
        else if value == 5 { Register::BP }
        else if value == 6 { Register::SI }
        else { Register::DI }
    } else {
        if value == 0 { Register::AL }
        else if value == 1 { Register::CL }
        else if value == 2 { Register::DL }
        else if value == 3 { Register::BL }
        else if value == 4 { Register::AH }
        else if value == 5 { Register::CH }
        else if value == 6 { Register::DH }
        else { Register::BH }
    }
}

/// The 3-bit field value that names a register in its width class: the
/// inverse of `spec_register_of`.
pub open spec fn spec_register_code(r: Register) -> u8 {
    match r {
        Register::AX | Register::AL => 0,
        Register::CX | Register::CL => 1,
        Register::DX | Register::DL => 2,
        Register::BX | Register::BL => 3,
        Register::SP | Register::AH => 4,
        Register::BP | Register::CH => 5,
        Register::SI | Register::DH => 6,
        Register::DI | Register::BH => 7,
    }
}

/// Reports whether a register name denotes a full 16-bit register.
pub fn register_is_wide(r: Register) -> (b: bool)
    ensures
        b == reg_is_wide(r),
{
    match r {
        Register::AX | Register::CX | Register::DX | Register::BX => true,
        Register::SP | Register::BP | Register::SI | Register::DI => true,
        _ => false,
    }
}

} // verus!
