//! The instruction decoder: a pure, restartable producer that assembles the
//! instruction found at a given position of the stream, or reports that the
//! stream ended there or was cut off mid-instruction.
//!
//! `spec_decode_at` states the whole decoding as a function of the buffer
//! contents and the position alone; `get_instruction_at` is proved to
//! return exactly that value, so repeated calls at the same position agree.

use vstd::prelude::*;

use crate::DecodeError;
use crate::dec::{decode_d, decode_mode, decode_register, decode_rm, decode_s, decode_w};
use crate::ea::{get_operand, spec_get_operand};
use crate::inst::{
    ArithmeticVariant, ImmediateValue, Instruction, MoveVariant, Opcode, Operand, Register,
    RegisterSize, spec_register_of, swap_operands,
};
use crate::opc::{parse_opcode, spec_classify_needs_second_byte, spec_parse_opcode};
use crate::values::{
    bits_to_i8, bits_to_i16, to_signed8, to_signed16, word_from, word_from_bytes,
};

verus! {

/// The stream byte at an index, if the stream reaches it.
pub open spec fn byte_at(prog: Seq<u8>, i: int) -> Option<u8> {
    if 0 <= i < prog.len() {
        Some(prog[i])
    } else {
        None
    }
}

/// The register/memory-and-register forms shared by moves and arithmetic:
/// width and direction bits in the first byte, register field in the
/// second, and the other operand resolved from the addressing fields. When
/// the direction bit is clear the register is the source.
pub open spec fn spec_decode_reg_mem_reg(prog: Seq<u8>, pos: int, opcode: Opcode) -> Result<
    Option<Instruction>,
    DecodeError,
> {
    match byte_at(prog, pos + 1) {
        None => Err(DecodeError::TruncatedInstruction),
        Some(b1) => {
            let b0 = prog[pos];
            let w = b0 & 1;
            let d = (b0 >> 1) & 1;
            let mode = (b1 >> 6) & 3;
            let rm = b1 & 7;
            let reg_op = Operand::Register(spec_register_of((b1 >> 3) & 7, w == 1));
            match spec_get_operand(mode, rm, w, byte_at(prog, pos + 2), byte_at(prog, pos + 3)) {
                Err(e) => Err(e),
                Ok((other, size)) => {
                    if d == 1 {
                        Ok(
                            Some(
                                Instruction {
                                    opcode,
                                    destination: Some(reg_op),
                                    source: Some(other),
                                    total_bytes: size,
                                },
                            ),
                        )
                    } else {
                        Ok(
                            Some(
                                Instruction {
                                    opcode,
                                    destination: Some(other),
                                    source: Some(reg_op),
                                    total_bytes: size,
                                },
                            ),
                        )
                    }
                },
            }
        },
    }
}

/// The move immediate-to-register form: its width bit and register field
/// sit in the first byte, and the immediate follows directly, one byte or
/// a little-endian pair.
pub open spec fn spec_decode_imm_to_reg(prog: Seq<u8>, pos: int, opcode: Opcode) -> Result<
    Option<Instruction>,
    DecodeError,
> {
    let b0 = prog[pos];
    let w = (b0 >> 3) & 1;
    let reg = spec_register_of(b0 & 7, w == 1);
    if w == 1 {
        match (byte_at(prog, pos + 1), byte_at(prog, pos + 2)) {
            (Some(lo), Some(hi)) => Ok(
                Some(
                    Instruction {
                        opcode,
                        destination: Some(Operand::Register(reg)),
                        source: Some(
                            Operand::ImmediateValue(
                                ImmediateValue::SixteenBits(to_signed16(word_from(lo, hi))),
                            ),
                        ),
                        total_bytes: 3,
                    },
                ),
            ),
            _ => Err(DecodeError::TruncatedInstruction),
        }
    } else {
        match byte_at(prog, pos + 1) {
            Some(b) => Ok(
                Some(
                    Instruction {
                        opcode,
                        destination: Some(Operand::Register(reg)),
                        source: Some(
                            Operand::ImmediateValue(ImmediateValue::EightBits(to_signed8(b))),
                        ),
                        total_bytes: 2,
                    },
                ),
            ),
            None => Err(DecodeError::TruncatedInstruction),
        }
    }
}

/// The move immediate-to-register/memory form: the addressing fields
/// resolve the destination first, consuming their own bytes, and the
/// immediate follows, sized by the width bit alone.
pub open spec fn spec_decode_move_imm_to_rm(prog: Seq<u8>, pos: int, opcode: Opcode) -> Result<
    Option<Instruction>,
    DecodeError,
> {
    match byte_at(prog, pos + 1) {
        None => Err(DecodeError::TruncatedInstruction),
        Some(b1) => {
            let b0 = prog[pos];
            let w = b0 & 1;
            let mode = (b1 >> 6) & 3;
            let rm = b1 & 7;
            match spec_get_operand(mode, rm, w, byte_at(prog, pos + 2), byte_at(prog, pos + 3)) {
                Err(e) => Err(e),
                Ok((dst, easize)) => {
                    if w == 1 {
                        match (byte_at(prog, pos + easize), byte_at(prog, pos + easize + 1)) {
                            (Some(lo), Some(hi)) => Ok(
                                Some(
                                    Instruction {
                                        opcode,
                                        destination: Some(dst),
                                        source: Some(
                                            Operand::ImmediateValue(
                                                ImmediateValue::SixteenBits(
                                                    to_signed16(word_from(lo, hi)),
                                                ),
                                            ),
                                        ),
                                        total_bytes: (easize + 2) as u8,
                                    },
                                ),
                            ),
                            _ => Err(DecodeError::TruncatedInstruction),
                        }
                    } else {
                        match byte_at(prog, pos + easize) {
                            Some(b) => Ok(
                                Some(
                                    Instruction {
                                        opcode,
                                        destination: Some(dst),
                                        source: Some(
                                            Operand::ImmediateValue(
                                                ImmediateValue::EightBits(to_signed8(b)),
                                            ),
                                        ),
                                        total_bytes: (easize + 1) as u8,
                                    },
                                ),
                            ),
                            None => Err(DecodeError::TruncatedInstruction),
                        }
                    }
                },
            }
        },
    }
}

/// The two accumulator-and-memory move forms: a direct 16-bit address
/// follows the opcode byte, and the width bit picks AL or AX.
pub open spec fn spec_decode_acc_mem(
    prog: Seq<u8>,
    pos: int,
    opcode: Opcode,
    mem_is_source: bool,
) -> Result<Option<Instruction>, DecodeError> {
    match (byte_at(prog, pos + 1), byte_at(prog, pos + 2)) {
        (Some(lo), Some(hi)) => {
            let b0 = prog[pos];
            let w = b0 & 1;
            let addr = Operand::Address(word_from(lo, hi));
            let acc = Operand::Register(if w == 1 { Register::AX } else { Register::AL });
            let (destination, source) = if mem_is_source {
                (acc, addr)
            } else {
                (addr, acc)
            };
            Ok(
                Some(
                    Instruction {
                        opcode,
                        destination: Some(destination),
                        source: Some(source),
                        total_bytes: 3,
                    },
                ),
            )
        },
        _ => Err(DecodeError::TruncatedInstruction),
    }
}

/// The arithmetic immediate-to-accumulator form: the immediate follows the
/// opcode byte directly and the width bit picks AL or AX.
pub open spec fn spec_decode_imm_acc(prog: Seq<u8>, pos: int, opcode: Opcode) -> Result<
    Option<Instruction>,
    DecodeError,
> {
    let b0 = prog[pos];
    let w = b0 & 1;
    if w == 1 {
        match (byte_at(prog, pos + 1), byte_at(prog, pos + 2)) {
            (Some(lo), Some(hi)) => Ok(
                Some(
                    Instruction {
                        opcode,
                        destination: Some(Operand::Register(Register::AX)),
                        source: Some(
                            Operand::ImmediateValue(
                                ImmediateValue::SixteenBits(to_signed16(word_from(lo, hi))),
                            ),
                        ),
                        total_bytes: 3,
                    },
                ),
            ),
            _ => Err(DecodeError::TruncatedInstruction),
        }
    } else {
        match byte_at(prog, pos + 1) {
            Some(b) => Ok(
                Some(
                    Instruction {
                        opcode,
                        destination: Some(Operand::Register(Register::AL)),
                        source: Some(
                            Operand::ImmediateValue(ImmediateValue::EightBits(to_signed8(b))),
                        ),
                        total_bytes: 2,
                    },
                ),
            ),
            None => Err(DecodeError::TruncatedInstruction),
        }
    }
}

/// The arithmetic immediate-to-register/memory form: the addressing fields
/// resolve the first operand, and the immediate that follows is a full
/// 16-bit word only when the sign-extend bit is clear and the width bit is
/// set; every other combination appends a single signed byte.
pub open spec fn spec_decode_arith_imm_rm(prog: Seq<u8>, pos: int, opcode: Opcode) -> Result<
    Option<Instruction>,
    DecodeError,
> {
    match byte_at(prog, pos + 1) {
        None => Err(DecodeError::TruncatedInstruction),
        Some(b1) => {
            let b0 = prog[pos];
            let w = b0 & 1;
            let s = (b0 >> 1) & 1;
            let mode = (b1 >> 6) & 3;
            let rm = b1 & 7;
            match spec_get_operand(mode, rm, w, byte_at(prog, pos + 2), byte_at(prog, pos + 3)) {
                Err(e) => Err(e),
                Ok((dst, easize)) => {
                    if s == 0 && w == 1 {
                        match (byte_at(prog, pos + easize), byte_at(prog, pos + easize + 1)) {
                            (Some(lo), Some(hi)) => Ok(
                                Some(
                                    Instruction {
                                        opcode,
                                        destination: Some(dst),
                                        source: Some(
                                            Operand::ImmediateValue(
                                                ImmediateValue::SixteenBits(
                                                    to_signed16(word_from(lo, hi)),
                                                ),
                                            ),
                                        ),
                                        total_bytes: (easize + 2) as u8,
                                    },
                                ),
                            ),
                            _ => Err(DecodeError::TruncatedInstruction),
                        }
                    } else {
                        match byte_at(prog, pos + easize) {
                            Some(b) => Ok(
                                Some(
                                    Instruction {
                                        opcode,
                                        destination: Some(dst),
                                        source: Some(
                                            Operand::ImmediateValue(
                                                ImmediateValue::EightBits(to_signed8(b)),
                                            ),
                                        ),
                                        total_bytes: (easize + 1) as u8,
                                    },
                                ),
                            ),
                            None => Err(DecodeError::TruncatedInstruction),
                        }
                    }
                },
            }
        },
    }
}

/// A conditional jump: the single signed displacement byte follows the
/// opcode byte, as the only operand.
pub open spec fn spec_decode_jump(prog: Seq<u8>, pos: int, opcode: Opcode) -> Result<
    Option<Instruction>,
    DecodeError,
> {
    match byte_at(prog, pos + 1) {
        Some(b) => Ok(
            Some(
                Instruction {
                    opcode,
                    destination: Some(
                        Operand::ImmediateValue(ImmediateValue::EightBits(to_signed8(b))),
                    ),
                    source: None,
                    total_bytes: 2,
                },
            ),
        ),
        None => Err(DecodeError::TruncatedInstruction),
    }
}

/// The operand assembly for each opcode class, after classification.
pub open spec fn spec_decode_body(prog: Seq<u8>, pos: int, opcode: Opcode) -> Result<
    Option<Instruction>,
    DecodeError,
> {
    match opcode {
        Opcode::Move { variant } => match variant {
            MoveVariant::RegMemToFromReg => spec_decode_reg_mem_reg(prog, pos, opcode),
            MoveVariant::ImmToRegMem => spec_decode_move_imm_to_rm(prog, pos, opcode),
            MoveVariant::ImmToReg => spec_decode_imm_to_reg(prog, pos, opcode),
            MoveVariant::MemToAcc => spec_decode_acc_mem(prog, pos, opcode, true),
            MoveVariant::AccToMem => spec_decode_acc_mem(prog, pos, opcode, false),
        },
        Opcode::Arithmetic { variant, family: _ } => match variant {
            ArithmeticVariant::RegMemAndRegEither => spec_decode_reg_mem_reg(prog, pos, opcode),
            ArithmeticVariant::ImmRegMem => spec_decode_arith_imm_rm(prog, pos, opcode),
            ArithmeticVariant::ImmAcc => spec_decode_imm_acc(prog, pos, opcode),
        },
        Opcode::ConditionalJump { variant: _ } => spec_decode_jump(prog, pos, opcode),
        Opcode::NotImplemented => Ok(
            Some(
                Instruction { opcode, destination: None, source: None, total_bytes: 1 },
            ),
        ),
    }
}

/// The instruction found at a position of the stream: `Ok(None)` at or past
/// the end of the stream, the truncated-stream error when the stream ends
/// mid-instruction, and otherwise the classified and assembled instruction,
/// a length-1 placeholder when no pattern matches the leading byte.
pub open spec fn spec_decode_at(prog: Seq<u8>, pos: int) -> Result<
    Option<Instruction>,
    DecodeError,
> {
    if !(0 <= pos < prog.len()) {
        Ok(None)
    } else {
        let b0 = prog[pos];
        if spec_classify_needs_second_byte(b0) && pos + 1 >= prog.len() {
            Err(DecodeError::TruncatedInstruction)
        } else {
            let b1 = if pos + 1 < prog.len() {
                prog[pos + 1]
            } else {
                0
            };
            spec_decode_body(prog, pos, spec_parse_opcode(b0, b1))
        }
    }
}

/// Whenever the resolver succeeds on displacement bytes looked ahead at
/// `pos + 2` and `pos + 3`, the operand's byte count stays within the
/// stream: every displacement byte it counted was actually there.
proof fn lemma_operand_bytes_within(
    prog: Seq<u8>,
    pos: int,
    mode: u8,
    rm: u8,
    w: u8,
    op: Operand,
    n: u8,
)
    requires
        0 <= pos,
        pos + 1 < prog.len(),
        spec_get_operand(mode, rm, w, byte_at(prog, pos + 2), byte_at(prog, pos + 3)) == Ok::<
            (Operand, u8),
            DecodeError,
        >((op, n)),
    ensures
        2 <= n <= 4,
        pos + n <= prog.len(),
{
}

/// A decoded instruction is at least one byte long and lies entirely
/// within the stream: the position it was decoded at plus its byte length
/// never passes the buffer end. The driving loop relies on this to make
/// progress and to stay inside the buffer.
pub proof fn lemma_decode_consumes_in_bounds(prog: Seq<u8>, pos: int, inst: Instruction)
    requires
        spec_decode_at(prog, pos) == Ok::<Option<Instruction>, DecodeError>(Some(inst)),
    ensures
        1 <= inst.total_bytes <= 6,
        pos + inst.total_bytes <= prog.len(),
{
    let b0 = prog[pos];
    let b1 = if pos + 1 < prog.len() {
        prog[pos + 1]
    } else {
        0
    };
    let opcode = spec_parse_opcode(b0, b1);
    match opcode {
        Opcode::Move { variant: MoveVariant::RegMemToFromReg } | Opcode::Arithmetic {
            variant: ArithmeticVariant::RegMemAndRegEither,
            family: _,
        } => {
            let mode = (b1 >> 6) & 3;
            let rm = b1 & 7;
            let w = b0 & 1;
            let resolved = spec_get_operand(
                mode,
                rm,
                w,
                byte_at(prog, pos + 2),
                byte_at(prog, pos + 3),
            );
            match resolved {
                Ok((op, n)) => {
                    lemma_operand_bytes_within(prog, pos, mode, rm, w, op, n);
                },
                Err(_) => {},
            }
        },
        Opcode::Move { variant: MoveVariant::ImmToRegMem } => {
            let mode = (b1 >> 6) & 3;
            let rm = b1 & 7;
            let w = b0 & 1;
            let resolved = spec_get_operand(
                mode,
                rm,
                w,
                byte_at(prog, pos + 2),
                byte_at(prog, pos + 3),
            );
            match resolved {
                Ok((op, n)) => {
                    lemma_operand_bytes_within(prog, pos, mode, rm, w, op, n);
                },
                Err(_) => {},
            }
        },
        Opcode::Arithmetic { variant: ArithmeticVariant::ImmRegMem, family: _ } => {
            let mode = (b1 >> 6) & 3;
            let rm = b1 & 7;
            let w = b0 & 1;
            let resolved = spec_get_operand(
                mode,
                rm,
                w,
                byte_at(prog, pos + 2),
                byte_at(prog, pos + 3),
            );
            match resolved {
                Ok((op, n)) => {
                    lemma_operand_bytes_within(prog, pos, mode, rm, w, op, n);
                },
                Err(_) => {},
            }
        },
        _ => {},
    }
}

/// Decoding is a pure function of the stream contents and the position:
/// two decoders over equal streams, asked for the same position, yield
/// structurally identical results, however often they are asked. This is
/// what `get_instruction_at` promises by pinning its result to
/// `spec_decode_at`.
pub proof fn lemma_decode_deterministic(prog1: Seq<u8>, prog2: Seq<u8>, pos: int)
    requires
        prog1 == prog2,
    ensures
        spec_decode_at(prog1, pos) == spec_decode_at(prog2, pos),
{
}

/// A decoder over a borrowed instruction stream. It holds no cursor: every
/// position is decoded from scratch, so separate passes over the same
/// stream never interfere.
pub struct Dissassembler<'a> {
    pub program: &'a [u8],
}

impl<'a> View for Dissassembler<'a> {
    type V = Seq<u8>;

    open spec fn view(&self) -> Seq<u8> {
        self.program@
    }
}

impl<'a> Dissassembler<'a> {
    /// Wraps an instruction stream for decoding.
    pub fn new(program: &'a [u8]) -> (r: Self)
        ensures
            r@ == program@,
    {
        Dissassembler { program }
    }

    /// Decodes the instruction at `position`, returning `Ok(None)` at or
    /// past the end of the stream and the truncated-stream error when the
    /// stream ends mid-instruction. The result is a function of the stream
    /// contents and the position alone.
    pub fn get_instruction_at(&self, position: usize) -> (r: Result<
        Option<Instruction>,
        DecodeError,
    >)
        ensures
            r == spec_decode_at(self@, position as int),
    {
        let n: usize = self.program.len();
        if position >= n {
            return Ok(None);
        }
        let b0: u8 = self.program[position];
        let remaining: usize = n - position;
        if b0 >> 2 == 0b100000 && remaining < 2 {
            return Err(DecodeError::TruncatedInstruction);
        }
        let b1: u8 = if remaining >= 2 {
            self.program[position + 1]
        } else {
            0
        };
        let opcode = parse_opcode(b0, b1);
        match opcode {
            Opcode::Move { variant: MoveVariant::RegMemToFromReg } => self.decode_reg_mem_reg(
                position,
                b0,
                opcode,
            ),
            Opcode::Move { variant: MoveVariant::ImmToRegMem } => self.decode_move_imm_to_rm(
                position,
                b0,
                opcode,
            ),
            Opcode::Move { variant: MoveVariant::ImmToReg } => self.decode_imm_to_reg(
                position,
                b0,
                opcode,
            ),
            Opcode::Move { variant: MoveVariant::MemToAcc } => self.decode_acc_mem(
                position,
                b0,
                opcode,
                true,
            ),
            Opcode::Move { variant: MoveVariant::AccToMem } => self.decode_acc_mem(
                position,
                b0,
                opcode,
                false,
            ),
            Opcode::Arithmetic { variant: ArithmeticVariant::RegMemAndRegEither, .. } => self
                .decode_reg_mem_reg(position, b0, opcode),
            Opcode::Arithmetic { variant: ArithmeticVariant::ImmRegMem, .. } => self
                .decode_arith_imm_rm(position, b0, opcode),
            Opcode::Arithmetic { variant: ArithmeticVariant::ImmAcc, .. } => self.decode_imm_acc(
                position,
                b0,
                opcode,
            ),
            Opcode::ConditionalJump { .. } => {
                if remaining < 2 {
                    Err(DecodeError::TruncatedInstruction)
                } else {
                    Ok(
                        Some(
                            Instruction {
                                opcode,
                                destination: Some(
                                    Operand::ImmediateValue(
                                        ImmediateValue::EightBits(bits_to_i8(b1)),
                                    ),
                                ),
                                source: None,
                                total_bytes: 2,
                            },
                        ),
                    )
                }
            },
            Opcode::NotImplemented => Ok(
                Some(
                    Instruction { opcode, destination: None, source: None, total_bytes: 1 },
                ),
            ),
        }
    }

    /// Reads the byte at `position + offset` if the stream reaches it.
    fn lookahead(&self, position: usize, offset: usize) -> (r: Option<u8>)
        requires
            position < self@.len(),
            offset <= 8,
        ensures
            r == byte_at(self@, position + offset),
    {
        let n: usize = self.program.len();
        if n - position > offset {
            Some(self.program[position + offset])
        } else {
            None
        }
    }

    fn decode_reg_mem_reg(&self, position: usize, b0: u8, opcode: Opcode) -> (r: Result<
        Option<Instruction>,
        DecodeError,
    >)
        requires
            position < self@.len(),
            b0 == self@[position as int],
        ensures
            r == spec_decode_reg_mem_reg(self@, position as int, opcode),
    {
        let b1 = match self.lookahead(position, 1) {
            Some(b) => b,
            None => {
                return Err(DecodeError::TruncatedInstruction);
            },
        };
        let w = decode_w(b0, 0);
        let d = decode_d(b0, 1);
        let mode = decode_mode(b1, 7);
        let rm = decode_rm(b1, 2);
        proof {
            assert((b0 >> 0) & 1 == b0 & 1) by (bit_vector);
            assert((b1 >> 0) & 7 == b1 & 7) by (bit_vector);
        }
        let size = if w == 1 {
            RegisterSize::SixteenBits
        } else {
            RegisterSize::EightBits
        };
        let reg_op = Operand::Register(decode_register(b1, 5, size));
        let d1 = self.lookahead(position, 2);
        let d2 = self.lookahead(position, 3);
        match get_operand(mode, rm, w, d1, d2) {
            Err(e) => Err(e),
            Ok((other, total)) => {
                let inst = Instruction {
                    opcode,
                    destination: Some(reg_op),
                    source: Some(other),
                    total_bytes: total,
                };
                if d == 1 {
                    Ok(Some(inst))
                } else {
                    Ok(Some(swap_operands(inst)))
                }
            },
        }
    }

    fn decode_imm_to_reg(&self, position: usize, b0: u8, opcode: Opcode) -> (r: Result<
        Option<Instruction>,
        DecodeError,
    >)
        requires
            position < self@.len(),
            b0 == self@[position as int],
        ensures
            r == spec_decode_imm_to_reg(self@, position as int, opcode),
    {
        let w = decode_w(b0, 3);
        proof {
            assert((b0 >> 0) & 7 == b0 & 7) by (bit_vector);
        }
        let size = if w == 1 {
            RegisterSize::SixteenBits
        } else {
            RegisterSize::EightBits
        };
        let reg = decode_register(b0, 2, size);
        if w == 1 {
            match (self.lookahead(position, 1), self.lookahead(position, 2)) {
                (Some(lo), Some(hi)) => Ok(
                    Some(
                        Instruction {
                            opcode,
                            destination: Some(Operand::Register(reg)),
                            source: Some(
                                Operand::ImmediateValue(
                                    ImmediateValue::SixteenBits(
                                        bits_to_i16(word_from_bytes(lo, hi)),
                                    ),
                                ),
                            ),
                            total_bytes: 3,
                        },
                    ),
                ),
                _ => Err(DecodeError::TruncatedInstruction),
            }
        } else {
            match self.lookahead(position, 1) {
                Some(b) => Ok(
                    Some(
                        Instruction {
                            opcode,
                            destination: Some(Operand::Register(reg)),
                            source: Some(
                                Operand::ImmediateValue(ImmediateValue::EightBits(bits_to_i8(b))),
                            ),
                            total_bytes: 2,
                        },
                    ),
                ),
                None => Err(DecodeError::TruncatedInstruction),
            }
        }
    }

    fn decode_move_imm_to_rm(&self, position: usize, b0: u8, opcode: Opcode) -> (r: Result<
        Option<Instruction>,
        DecodeError,
    >)
        requires
            position < self@.len(),
            b0 == self@[position as int],
        ensures
            r == spec_decode_move_imm_to_rm(self@, position as int, opcode),
    {
        let b1 = match self.lookahead(position, 1) {
            Some(b) => b,
            None => {
                return Err(DecodeError::TruncatedInstruction);
            },
        };
        let w = decode_w(b0, 0);
        let mode = decode_mode(b1, 7);
        let rm = decode_rm(b1, 2);
        proof {
            assert((b0 >> 0) & 1 == b0 & 1) by (bit_vector);
            assert((b1 >> 0) & 7 == b1 & 7) by (bit_vector);
        }
        let d1 = self.lookahead(position, 2);
        let d2 = self.lookahead(position, 3);
        match get_operand(mode, rm, w, d1, d2) {
            Err(e) => Err(e),
            Ok((dst, easize)) => {
                let easz: usize = easize as usize;
                if w == 1 {
                    match (self.lookahead(position, easz), self.lookahead(position, easz + 1)) {
                        (Some(lo), Some(hi)) => Ok(
                            Some(
                                Instruction {
                                    opcode,
                                    destination: Some(dst),
                                    source: Some(
                                        Operand::ImmediateValue(
                                            ImmediateValue::SixteenBits(
                                                bits_to_i16(word_from_bytes(lo, hi)),
                                            ),
                                        ),
                                    ),
                                    total_bytes: easize + 2,
                                },
                            ),
                        ),
                        _ => Err(DecodeError::TruncatedInstruction),
                    }
                } else {
                    match self.lookahead(position, easz) {
                        Some(b) => Ok(
                            Some(
                                Instruction {
                                    opcode,
                                    destination: Some(dst),
                                    source: Some(
                                        Operand::ImmediateValue(
                                            ImmediateValue::EightBits(bits_to_i8(b)),
                                        ),
                                    ),
                                    total_bytes: easize + 1,
                                },
                            ),
                        ),
                        None => Err(DecodeError::TruncatedInstruction),
                    }
                }
            },
        }
    }

    fn decode_acc_mem(
        &self,
        position: usize,
        b0: u8,
        opcode: Opcode,
        mem_is_source: bool,
    ) -> (r: Result<Option<Instruction>, DecodeError>)
        requires
            position < self@.len(),
            b0 == self@[position as int],
        ensures
            r == spec_decode_acc_mem(self@, position as int, opcode, mem_is_source),
    {
        match (self.lookahead(position, 1), self.lookahead(position, 2)) {
            (Some(lo), Some(hi)) => {
                let w = decode_w(b0, 0);
                proof {
                    assert((b0 >> 0) & 1 == b0 & 1) by (bit_vector);
                }
                let addr = Operand::Address(word_from_bytes(lo, hi));
                let acc = Operand::Register(
                    if w == 1 {
                        Register::AX
                    } else {
                        Register::AL
                    },
                );
                let (destination, source) = if mem_is_source {
                    (acc, addr)
                } else {
                    (addr, acc)
                };
                Ok(
                    Some(
                        Instruction {
                            opcode,
                            destination: Some(destination),
                            source: Some(source),
                            total_bytes: 3,
                        },
                    ),
                )
            },
            _ => Err(DecodeError::TruncatedInstruction),
        }
    }

    fn decode_imm_acc(&self, position: usize, b0: u8, opcode: Opcode) -> (r: Result<
        Option<Instruction>,
        DecodeError,
    >)
        requires
            position < self@.len(),
            b0 == self@[position as int],
        ensures
            r == spec_decode_imm_acc(self@, position as int, opcode),
    {
        let w = decode_w(b0, 0);
        proof {
            assert((b0 >> 0) & 1 == b0 & 1) by (bit_vector);
        }
        if w == 1 {
            match (self.lookahead(position, 1), self.lookahead(position, 2)) {
                (Some(lo), Some(hi)) => Ok(
                    Some(
                        Instruction {
                            opcode,
                            destination: Some(Operand::Register(Register::AX)),
                            source: Some(
                                Operand::ImmediateValue(
                                    ImmediateValue::SixteenBits(
                                        bits_to_i16(word_from_bytes(lo, hi)),
                                    ),
                                ),
                            ),
                            total_bytes: 3,
                        },
                    ),
                ),
                _ => Err(DecodeError::TruncatedInstruction),
            }
        } else {
            match self.lookahead(position, 1) {
                Some(b) => Ok(
                    Some(
                        Instruction {
                            opcode,
                            destination: Some(Operand::Register(Register::AL)),
                            source: Some(
                                Operand::ImmediateValue(ImmediateValue::EightBits(bits_to_i8(b))),
                            ),
                            total_bytes: 2,
                        },
                    ),
                ),
                None => Err(DecodeError::TruncatedInstruction),
            }
        }
    }

    fn decode_arith_imm_rm(&self, position: usize, b0: u8, opcode: Opcode) -> (r: Result<
        Option<Instruction>,
        DecodeError,
    >)
        requires
            position < self@.len(),
            b0 == self@[position as int],
        ensures
            r == spec_decode_arith_imm_rm(self@, position as int, opcode),
    {
        let b1 = match self.lookahead(position, 1) {
            Some(b) => b,
            None => {
                return Err(DecodeError::TruncatedInstruction);
            },
        };
        let w = decode_w(b0, 0);
        let s = decode_s(b0, 1);
        let mode = decode_mode(b1, 7);
        let rm = decode_rm(b1, 2);
        proof {
            assert((b0 >> 0) & 1 == b0 & 1) by (bit_vector);
            assert((b1 >> 0) & 7 == b1 & 7) by (bit_vector);
        }
        let d1 = self.lookahead(position, 2);
        let d2 = self.lookahead(position, 3);
        match get_operand(mode, rm, w, d1, d2) {
            Err(e) => Err(e),
            Ok((dst, easize)) => {
                let easz: usize = easize as usize;
                if s == 0 && w == 1 {
                    match (self.lookahead(position, easz), self.lookahead(position, easz + 1)) {
                        (Some(lo), Some(hi)) => Ok(
                            Some(
                                Instruction {
                                    opcode,
                                    destination: Some(dst),
                                    source: Some(
                                        Operand::ImmediateValue(
                                            ImmediateValue::SixteenBits(
                                                bits_to_i16(word_from_bytes(lo, hi)),
                                            ),
                                        ),
                                    ),
                                    total_bytes: easize + 2,
                                },
                            ),
                        ),
                        _ => Err(DecodeError::TruncatedInstruction),
                    }
                } else {
                    match self.lookahead(position, easz) {
                        Some(b) => Ok(
                            Some(
                                Instruction {
                                    opcode,
                                    destination: Some(dst),
                                    source: Some(
                                        Operand::ImmediateValue(
                                            ImmediateValue::EightBits(bits_to_i8(b)),
                                        ),
                                    ),
                                    total_bytes: easize + 1,
                                },
                            ),
                        ),
                        None => Err(DecodeError::TruncatedInstruction),
                    }
                }
            },
        }
    }
}

} // verus!
