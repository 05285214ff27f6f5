//! The machine as mathematics: its state, and what one cycle and a run of
//! cycles make of a state.

use crate::instruction::Opcode;
use crate::outcome::{HaltReason, RuntimeFault, Status};
use vstd::prelude::*;

verus! {

/// The number of registers.
pub const REGISTER_COUNT: usize = 32;

/// The state of a machine.
pub struct VMState {
    pub registers: Seq<i32>,
    pub pc: nat,
    pub program: Seq<u8>,
    pub remainder: u32,
    pub equal_flag: bool,
}

/// A state together with the outcome of the cycle that led to it.
pub struct Step {
    pub state: VMState,
    pub outcome: Result<Status, RuntimeFault>,
}

impl VMState {
    /// The state of a new machine: every register zero, no program.
    pub open spec fn initial() -> VMState {
        VMState {
            registers: Seq::new(REGISTER_COUNT as nat, |i: int| 0i32),
            pc: 0,
            program: Seq::empty(),
            remainder: 0,
            equal_flag: false,
        }
    }

    /// The state has its full register file and a program that a machine
    /// can hold.
    pub open spec fn well_formed(self) -> bool {
        &&& self.registers.len() == REGISTER_COUNT
        &&& self.program.len() <= usize::MAX
    }

    /// The program counter stands inside the program or at its end.
    pub open spec fn pc_in_program(self) -> bool {
        self.pc <= self.program.len()
    }

    /// The opcode that the next cycle fetches.
    pub open spec fn current_opcode(self) -> Opcode
        recommends
            self.pc < self.program.len(),
    {
        Opcode::of_code(self.program[self.pc as int])
    }

    /// The `k`-th operand byte of the instruction at the program counter,
    /// counted from 1.
    pub open spec fn operand(self, k: int) -> u8
        recommends
            1 <= k,
            self.pc + k < self.program.len(),
    {
        self.program[self.pc + k]
    }

    /// The state with the program counter at `pc`.
    pub open spec fn with_pc(self, pc: nat) -> VMState {
        VMState { pc: pc, ..self }
    }

    /// The state with `value` in register `index`.
    pub open spec fn with_register(self, index: int, value: i32) -> VMState {
        VMState { registers: self.registers.update(index, value), ..self }
    }

    /// The state with `bytes` appended to the program.
    pub open spec fn with_appended(self, bytes: Seq<u8>) -> VMState {
        VMState { program: self.program + bytes, ..self }
    }
}

/// The number of operand bytes that follow the opcode byte.
pub open spec fn operand_width(op: Opcode) -> nat {
    match op {
        Opcode::HLT | Opcode::IGL => 0,
        Opcode::JMP | Opcode::JMPF | Opcode::JMPB | Opcode::JMPE => 1,
        _ => 3,
    }
}

/// The number of bytes of a whole instruction.
pub open spec fn instruction_width(op: Opcode) -> nat {
    1 + operand_width(op)
}

/// The number of leading operand bytes that name a register.
pub open spec fn register_operands(op: Opcode) -> nat {
    match op {
        Opcode::HLT | Opcode::IGL => 0,
        Opcode::LOAD | Opcode::JMP | Opcode::JMPF | Opcode::JMPB | Opcode::JMPE => 1,
        Opcode::ADD | Opcode::SUB | Opcode::MUL | Opcode::DIV => 3,
        _ => 2,
    }
}

/// The 16-bit value whose high byte is `high` and whose low byte is `low`.
pub open spec fn big_endian_u16(high: u8, low: u8) -> u16 {
    (high * 256 + low) as u16
}

/// The magnitude of an integer.
pub open spec fn magnitude(x: int) -> int {
    if x < 0 {
        -x
    } else {
        x
    }
}

/// The quotient of `x` by `y`, rounded toward zero.
pub open spec fn truncated_quotient(x: int, y: int) -> int
    recommends
        y != 0,
{
    if (x < 0) == (y < 0) {
        magnitude(x) / magnitude(y)
    } else {
        -(magnitude(x) / magnitude(y))
    }
}

/// What is left of `x` after taking `y` out `truncated_quotient(x, y)`
/// times. It has the sign of `x`.
pub open spec fn truncated_remainder(x: int, y: int) -> int
    recommends
        y != 0,
{
    if x < 0 {
        -(magnitude(x) % magnitude(y))
    } else {
        magnitude(x) % magnitude(y)
    }
}

/// A remainder as the remainder register holds it: unsigned, a negative
/// one in two's complement.
pub open spec fn stored_remainder(r: int) -> u32
    recommends
        i32::MIN <= r <= i32::MAX,
{
    if r < 0 {
        (r + 0x1_0000_0000) as u32
    } else {
        r as u32
    }
}

/// The exact result of an arithmetic opcode on `x` and `y`.
pub open spec fn arithmetic_result(op: Opcode, x: int, y: int) -> int
    recommends
        op == Opcode::ADD || op == Opcode::SUB || op == Opcode::MUL || op == Opcode::DIV,
        op == Opcode::DIV ==> y != 0,
{
    match op {
        Opcode::ADD => x + y,
        Opcode::SUB => x - y,
        Opcode::MUL => x * y,
        _ => truncated_quotient(x, y),
    }
}

/// The verdict of a comparison opcode on `x` and `y`.
pub open spec fn comparison_result(op: Opcode, x: int, y: int) -> bool
    recommends
        op == Opcode::EQ || op == Opcode::NEQ || op == Opcode::GTE || op == Opcode::LTE || op
            == Opcode::LT || op == Opcode::GT,
{
    match op {
        Opcode::EQ => x == y,
        Opcode::NEQ => x != y,
        Opcode::GTE => x >= y,
        Opcode::LTE => x <= y,
        Opcode::LT => x < y,
        _ => x > y,
    }
}

/// Where a jump opcode leads from the instruction at `pc`, given the value
/// of its register. A relative jump counts from behind its own two bytes.
pub open spec fn jump_target(op: Opcode, pc: nat, value: int) -> int
    recommends
        op.is_jump(),
{
    match op {
        Opcode::JMPF => pc + 2 + value,
        Opcode::JMPB => pc + 2 - value,
        _ => value,
    }
}

/// The first operand byte of the instruction at the program counter that
/// should name a register and does not, if there is one.
pub open spec fn bad_register(s: VMState, op: Opcode) -> Option<u8> {
    if register_operands(op) >= 1 && s.operand(1) >= REGISTER_COUNT {
        Some(s.operand(1))
    } else if register_operands(op) >= 2 && s.operand(2) >= REGISTER_COUNT {
        Some(s.operand(2))
    } else if register_operands(op) >= 3 && s.operand(3) >= REGISTER_COUNT {
        Some(s.operand(3))
    } else {
        None
    }
}

/// The state with a fault of the instruction at the program counter: the
/// state is unchanged.
pub open spec fn faulted(s: VMState, fault: RuntimeFault) -> Step {
    Step { state: s, outcome: Err(fault) }
}

/// The state after an instruction that lets the machine go on.
pub open spec fn advanced(s: VMState) -> Step {
    Step { state: s, outcome: Ok(Status::Running) }
}

/// What `LOAD register, high, low` makes of a state.
pub open spec fn load_spec(s: VMState) -> Step {
    let value = big_endian_u16(s.operand(2), s.operand(3));
    advanced(s.with_register(s.operand(1) as int, value as i32).with_pc(s.pc + 4))
}

/// What an arithmetic opcode with operands `left, right, destination`
/// makes of a state.
pub open spec fn arithmetic_spec(s: VMState, op: Opcode) -> Step {
    let pc = s.pc as usize;
    let x = s.registers[s.operand(1) as int];
    let y = s.registers[s.operand(2) as int];
    let result = arithmetic_result(op, x as int, y as int);
    if op == Opcode::DIV && y == 0 {
        faulted(s, RuntimeFault::DivisionByZero { pc, divisor: s.operand(2) })
    } else if result < i32::MIN || result > i32::MAX {
        faulted(s, RuntimeFault::ArithmeticOverflow { opcode: op, pc, left: x, right: y })
    } else {
        let t = s.with_register(s.operand(3) as int, result as i32).with_pc(s.pc + 4);
        if op == Opcode::DIV {
            advanced(
                VMState {
                    remainder: stored_remainder(truncated_remainder(x as int, y as int)),
                    ..t
                },
            )
        } else {
            advanced(t)
        }
    }
}

/// What a comparison opcode with operands `left, right, unused` makes of a
/// state. The third byte is passed over unread.
pub open spec fn comparison_spec(s: VMState, op: Opcode) -> Step {
    let x = s.registers[s.operand(1) as int];
    let y = s.registers[s.operand(2) as int];
    advanced(
        VMState { equal_flag: comparison_result(op, x as int, y as int), pc: s.pc + 4, ..s },
    )
}

/// What a jump opcode with operand `register` makes of a state. `JMPE`
/// jumps only where the equal flag is set, and else goes on behind its own
/// two bytes, whatever the register holds.
pub open spec fn jump_spec(s: VMState, op: Opcode) -> Step {
    let value = s.registers[s.operand(1) as int];
    let target = jump_target(op, s.pc, value as int);
    if op == Opcode::JMPE && !s.equal_flag {
        advanced(s.with_pc(s.pc + 2))
    } else if value < 0 || target < 0 || target > s.program.len() {
        faulted(s, RuntimeFault::JumpOutOfRange { opcode: op, pc: s.pc as usize, value })
    } else {
        advanced(s.with_pc(target as nat))
    }
}

/// What one fetch-decode-execute cycle makes of a state.
///
/// At or behind the end of the program the machine halts and nothing
/// changes. `HLT` and every byte that names no operation halt the machine
/// behind that one byte. Every other instruction is first fetched whole,
/// then its register operands are checked in order, then it is executed;
/// a fault at any of these leaves the state unchanged.
pub open spec fn step_spec(s: VMState) -> Step {
    if s.pc >= s.program.len() {
        Step { state: s, outcome: Ok(Status::Halted(HaltReason::EndOfProgram)) }
    } else {
        let op = s.current_opcode();
        let pc = s.pc as usize;
        if op == Opcode::HLT {
            Step { state: s.with_pc(s.pc + 1), outcome: Ok(Status::Halted(HaltReason::HltExecuted)) }
        } else if op == Opcode::IGL {
            Step {
                state: s.with_pc(s.pc + 1),
                outcome: Ok(
                    Status::Halted(HaltReason::IllegalOpcode { byte: s.program[s.pc as int] }),
                ),
            }
        } else if s.pc + instruction_width(op) > s.program.len() {
            faulted(s, RuntimeFault::TruncatedInstruction { opcode: op, pc })
        } else if bad_register(s, op) is Some {
            faulted(
                s,
                RuntimeFault::RegisterOutOfRange { opcode: op, pc, index: bad_register(s, op)->0 },
            )
        } else if op == Opcode::LOAD {
            load_spec(s)
        } else if op.is_jump() {
            jump_spec(s, op)
        } else if register_operands(op) == 3 {
            arithmetic_spec(s, op)
        } else {
            comparison_spec(s, op)
        }
    }
}

/// What at most `limit` cycles make of a state: the machine cycles until
/// it halts or faults. Where it does neither within `limit` cycles, the
/// outcome is `Running`.
pub open spec fn run_spec(s: VMState, limit: nat) -> Step
    decreases limit,
{
    if limit == 0 {
        advanced(s)
    } else {
        let first = step_spec(s);
        if first.outcome == Ok::<Status, RuntimeFault>(Status::Running) {
            run_spec(first.state, (limit - 1) as nat)
        } else {
            first
        }
    }
}

} // verus!
