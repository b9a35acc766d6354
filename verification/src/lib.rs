//! A verified decoder and emulator for a subset of the 8086 instruction set:
//! move, add/sub/cmp arithmetic, and conditional jumps, executed against a
//! simulated machine state of registers, flags and a 64 KiB memory.

use vstd::prelude::*;

pub mod dec;
pub mod dis;
pub mod ea;
pub mod emu;
pub mod enc;
pub mod inst;
pub mod opc;
pub mod step;
pub mod values;

verus! {

/// Errors reported while decoding an instruction stream.
#[derive(Clone, Copy, Debug, PartialEq, Eq, Structural)]
pub enum DecodeError {
    /// The buffer ended in the middle of an instruction.
    TruncatedInstruction,
}

/// Errors reported while executing a decoded instruction.
#[derive(Clone, Copy, Debug, PartialEq, Eq, Structural)]
pub enum ExecError {
    /// The operands of the instruction do not fit together (for example a
    /// register-to-register move between operands of different widths).
    TypeMismatch,
    /// The instruction was decoded but falls outside the modeled subset of
    /// the machine (an unmodeled jump condition, a memory-operand form the
    /// execution engine does not evaluate, or an unrecognized opcode).
    UnsupportedOperation,
}

} // verus!
