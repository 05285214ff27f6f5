//! What one cycle of the machine can end in: it goes on, it halts, or it
//! faults.

use crate::instruction::Opcode;
use vstd::prelude::*;

verus! {

/// Why the machine halted. A halt is a normal end, not an error.
#[derive(Copy, Clone, Debug, PartialEq, Eq)]
pub enum HaltReason {
    /// The program counter stands at or behind the end of the program.
    EndOfProgram,
    /// A `HLT` was executed.
    HltExecuted,
    /// The byte fetched as an opcode names no operation.
    IllegalOpcode { byte: u8 },
}

/// The state of the machine after a cycle that did not fault.
#[derive(Copy, Clone, Debug, PartialEq, Eq)]
pub enum Status {
    Running,
    Halted(HaltReason),
}

/// A fault of the instruction at `pc`. The machine is left as it was
/// before that instruction.
#[derive(Copy, Clone, Debug, PartialEq, Eq)]
pub enum RuntimeFault {
    /// The program ends before the last operand byte of the instruction.
    TruncatedInstruction { opcode: Opcode, pc: usize },
    /// An operand byte names a register that does not exist.
    RegisterOutOfRange { opcode: Opcode, pc: usize, index: u8 },
    /// `DIV` with a divisor of zero, held by register `divisor`.
    DivisionByZero { pc: usize, divisor: u8 },
    /// The result of `left op right` does not fit a register.
    ArithmeticOverflow { opcode: Opcode, pc: usize, left: i32, right: i32 },
    /// A jump by or to `value` would leave the program.
    JumpOutOfRange { opcode: Opcode, pc: usize, value: i32 },
}

} // verus!
