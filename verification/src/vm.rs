//! The register machine: its state and its fetch-decode-execute cycle.

use crate::instruction::Opcode;
use crate::outcome::{HaltReason, RuntimeFault, Status};
use crate::semantics::{
    arithmetic_result, big_endian_u16, comparison_result, run_spec, step_spec, stored_remainder,
    truncated_quotient, truncated_remainder, VMState,
};
use vstd::prelude::*;

verus! {

/// The number of cycles after which [`VM::run`] gives up on a program that
/// has neither halted nor faulted.
pub const RUN_LIMIT: u64 = 0xffff_ffff_ffff_ffff;

/// A machine with 32 registers, a program counter, a program that only
/// grows, a remainder register and an equal flag.
#[derive(Debug)]
pub struct VM {
    pub registers: [i32; 32],
    /// The offset in `program` of the next byte to fetch.
    pub pc: usize,
    pub program: Vec<u8>,
    /// What the last `DIV` left over.
    pub remainder: u32,
    /// The verdict of the last comparison.
    pub equal_flag: bool,
}

impl View for VM {
    type V = VMState;

    open spec fn view(&self) -> VMState {
        VMState {
            registers: self.registers@,
            pc: self.pc as nat,
            program: self.program@,
            remainder: self.remainder,
            equal_flag: self.equal_flag,
        }
    }
}

/// The state of a machine always has its full register file and a program
/// that fits the machine.
pub proof fn lemma_machine_state_well_formed(vm: VM)
    ensures
        vm@.well_formed(),
{
    vstd::array::array_len_matches_n(&vm.registers);
    assert(vm.program.len() == vm.program@.len());
}

impl Default for VM {
    /// A new machine: every register zero, the program counter at zero,
    /// no program.
    fn default() -> (vm: VM)
        ensures
            vm@ == VMState::initial(),
    {
        let vm = VM {
            registers: [0i32; 32],
            pc: 0,
            program: Vec::new(),
            remainder: 0,
            equal_flag: false,
        };
        assert(vm@.registers =~= VMState::initial().registers);
        vm
    }
}

/// The result of an arithmetic opcode on two register values, or `None`
/// where it does not fit a register. The divisor of a `DIV` is not zero.
fn arithmetic(opcode: Opcode, x: i32, y: i32) -> (result: Option<i32>)
    requires
        opcode == Opcode::ADD || opcode == Opcode::SUB || opcode == Opcode::MUL || opcode
            == Opcode::DIV,
        opcode == Opcode::DIV ==> y != 0,
    ensures
        result == (if i32::MIN <= arithmetic_result(opcode, x as int, y as int) <= i32::MAX {
            Some(arithmetic_result(opcode, x as int, y as int) as i32)
        } else {
            None
        }),
        opcode == Opcode::DIV && x == i32::MIN && y == -1 ==> result is None,
{
    assert(truncated_quotient(i32::MIN as int, -1) == 0x8000_0000int);
    match opcode {
        Opcode::ADD => x.checked_add(y),
        Opcode::SUB => x.checked_sub(y),
        Opcode::MUL => x.checked_mul(y),
        _ => x.checked_div(y),
    }
}

/// The verdict of a comparison opcode on two register values.
fn compare(opcode: Opcode, x: i32, y: i32) -> (verdict: bool)
    requires
        opcode == Opcode::EQ || opcode == Opcode::NEQ || opcode == Opcode::GTE || opcode
            == Opcode::LTE || opcode == Opcode::LT || opcode == Opcode::GT,
    ensures
        verdict == comparison_result(opcode, x as int, y as int),
{
    match opcode {
        Opcode::EQ => x == y,
        Opcode::NEQ => x != y,
        Opcode::GTE => x >= y,
        Opcode::LTE => x <= y,
        Opcode::LT => x < y,
        _ => x > y,
    }
}

/// What a `DIV` of `x` by `y` leaves in the remainder register.
fn division_remainder(x: i32, y: i32) -> (r: u32)
    requires
        y != 0,
        !(x == i32::MIN && y == -1),
    ensures
        r == stored_remainder(truncated_remainder(x as int, y as int)),
{
    match x.checked_rem(y) {
        Some(r) => {
            if r < 0 {
                (r as i64 + 0x1_0000_0000i64) as u32
            } else {
                r as u32
            }
        },
        None => 0,
    }
}

impl VM {
    /// A new machine, as `default` makes it.
    pub fn new() -> (vm: VM)
        ensures
            vm@ == VMState::initial(),
    {
        VM::default()
    }

    /// Appends one byte to the program. Nothing is executed.
    pub fn add_byte(&mut self, b: u8)
        ensures
            final(self)@ == old(self)@.with_appended(seq![b]),
    {
        self.program.push(b);
        assert(self@.program =~= old(self)@.program + seq![b]);
    }

    /// Appends `bytes` to the program. Nothing is executed.
    pub fn add_bytes(&mut self, bytes: &Vec<u8>)
        ensures
            final(self)@ == old(self)@.with_appended(bytes@),
    {
        let mut i: usize = 0;
        while i < bytes.len()
            invariant
                i <= bytes.len(),
                self@ == old(self)@.with_appended(bytes@.take(i as int)),
            decreases bytes.len() - i,
        {
            self.program.push(bytes[i]);
            i += 1;
            assert(self@.program =~= old(self)@.program + bytes@.take(i as int));
        }
        assert(bytes@.take(i as int) =~= bytes@);
    }

    /// Fetches the byte at the program counter as an opcode.
    fn decode_opcode(&mut self) -> (opcode: Opcode)
        requires
            old(self).pc < old(self).program.len(),
        ensures
            opcode == old(self)@.current_opcode(),
            final(self)@ == old(self)@.with_pc(old(self)@.pc + 1),
    {
        let opcode = Opcode::from(self.program[self.pc]);
        self.pc += 1;
        opcode
    }

    /// Fetches the byte at the program counter.
    fn next_8_bits(&mut self) -> (result: u8)
        requires
            old(self).pc < old(self).program.len(),
        ensures
            result == old(self).program[old(self).pc as int],
            final(self)@ == old(self)@.with_pc(old(self)@.pc + 1),
    {
        let result = self.program[self.pc];
        self.pc += 1;
        result
    }

    /// Fetches the two bytes at the program counter as one number, high
    /// byte first.
    fn next_16_bits(&mut self) -> (result: u16)
        requires
            old(self).pc + 1 < old(self).program.len(),
        ensures
            result == big_endian_u16(
                old(self).program[old(self).pc as int],
                old(self).program[old(self).pc + 1],
            ),
            final(self)@ == old(self)@.with_pc(old(self)@.pc + 2),
    {
        let first_8_bits = self.program[self.pc] as u16;
        let next_8_bits = self.program[self.pc + 1] as u16;
        let result = (first_8_bits << 8) | next_8_bits;
        assert(first_8_bits < 256 && next_8_bits < 256 ==> ((first_8_bits << 8) | next_8_bits)
            == first_8_bits * 256 + next_8_bits) by (bit_vector);
        self.pc += 2;
        result
    }

    /// Puts the program counter back to the start of the instruction that
    /// faulted.
    fn fault(&mut self, start: usize, fault: RuntimeFault) -> (outcome: Result<
        Status,
        RuntimeFault,
    >)
        ensures
            final(self)@ == old(self)@.with_pc(start as nat),
            outcome == Err::<Status, RuntimeFault>(fault),
    {
        self.pc = start;
        Err(fault)
    }

    /// Executes `LOAD`, whose opcode byte at `start` has been fetched.
    fn execute_load(&mut self, start: usize) -> (outcome: Result<Status, RuntimeFault>)
        requires
            start < old(self).program.len(),
            old(self).pc == start + 1,
            Opcode::of_code(old(self).program[start as int]) == Opcode::LOAD,
        ensures
            final(self)@ == step_spec(old(self)@.with_pc(start as nat)).state,
            outcome == step_spec(old(self)@.with_pc(start as nat)).outcome,
    {
        let opcode = Opcode::LOAD;
        if self.program.len() - self.pc < 3 {
            return self.fault(start, RuntimeFault::TruncatedInstruction { opcode, pc: start });
        }
        let register = self.next_8_bits();
        let number = self.next_16_bits();
        if register >= 32 {
            return self.fault(
                start,
                RuntimeFault::RegisterOutOfRange { opcode, pc: start, index: register },
            );
        }
        self.registers[register as usize] = number as i32;
        assert(self@ =~= step_spec(old(self)@.with_pc(start as nat)).state);
        Ok(Status::Running)
    }

    /// Executes `ADD`, `SUB`, `MUL` or `DIV`, whose opcode byte at `start`
    /// has been fetched.
    fn execute_arithmetic(&mut self, opcode: Opcode, start: usize) -> (outcome: Result<
        Status,
        RuntimeFault,
    >)
        requires
            start < old(self).program.len(),
            old(self).pc == start + 1,
            Opcode::of_code(old(self).program[start as int]) == opcode,
            opcode == Opcode::ADD || opcode == Opcode::SUB || opcode == Opcode::MUL || opcode
                == Opcode::DIV,
        ensures
            final(self)@ == step_spec(old(self)@.with_pc(start as nat)).state,
            outcome == step_spec(old(self)@.with_pc(start as nat)).outcome,
    {
        if self.program.len() - self.pc < 3 {
            return self.fault(start, RuntimeFault::TruncatedInstruction { opcode, pc: start });
        }
        let left = self.next_8_bits();
        let right = self.next_8_bits();
        let destination = self.next_8_bits();
        let bad = if left >= 32 {
            Some(left)
        } else if right >= 32 {
            Some(right)
        } else if destination >= 32 {
            Some(destination)
        } else {
            None
        };
        if let Some(index) = bad {
            return self.fault(start, RuntimeFault::RegisterOutOfRange { opcode, pc: start, index });
        }
        let register1 = self.registers[left as usize];
        let register2 = self.registers[right as usize];
        if opcode == Opcode::DIV && register2 == 0 {
            return self.fault(start, RuntimeFault::DivisionByZero { pc: start, divisor: right });
        }
        match arithmetic(opcode, register1, register2) {
            Some(result) => {
                self.registers[destination as usize] = result;
                if opcode == Opcode::DIV {
                    self.remainder = division_remainder(register1, register2);
                }
                assert(self@ =~= step_spec(old(self)@.with_pc(start as nat)).state);
                Ok(Status::Running)
            },
            None => self.fault(
                start,
                RuntimeFault::ArithmeticOverflow {
                    opcode,
                    pc: start,
                    left: register1,
                    right: register2,
                },
            ),
        }
    }

    /// Executes a comparison, whose opcode byte at `start` has been
    /// fetched.
    fn execute_comparison(&mut self, opcode: Opcode, start: usize) -> (outcome: Result<
        Status,
        RuntimeFault,
    >)
        requires
            start < old(self).program.len(),
            old(self).pc == start + 1,
            Opcode::of_code(old(self).program[start as int]) == opcode,
            opcode == Opcode::EQ || opcode == Opcode::NEQ || opcode == Opcode::GTE || opcode
                == Opcode::LTE || opcode == Opcode::LT || opcode == Opcode::GT,
        ensures
            final(self)@ == step_spec(old(self)@.with_pc(start as nat)).state,
            outcome == step_spec(old(self)@.with_pc(start as nat)).outcome,
    {
        if self.program.len() - self.pc < 3 {
            return self.fault(start, RuntimeFault::TruncatedInstruction { opcode, pc: start });
        }
        let left = self.next_8_bits();
        let right = self.next_8_bits();
        self.next_8_bits();
        if left >= 32 {
            return self.fault(
                start,
                RuntimeFault::RegisterOutOfRange { opcode, pc: start, index: left },
            );
        }
        if right >= 32 {
            return self.fault(
                start,
                RuntimeFault::RegisterOutOfRange { opcode, pc: start, index: right },
            );
        }
        let register1 = self.registers[left as usize];
        let register2 = self.registers[right as usize];
        self.equal_flag = compare(opcode, register1, register2);
        assert(self@ =~= step_spec(old(self)@.with_pc(start as nat)).state);
        Ok(Status::Running)
    }

    /// Executes a jump, whose opcode byte at `start` has been fetched.
    fn execute_jump(&mut self, opcode: Opcode, start: usize) -> (outcome: Result<
        Status,
        RuntimeFault,
    >)
        requires
            start < old(self).program.len(),
            old(self).pc == start + 1,
            Opcode::of_code(old(self).program[start as int]) == opcode,
            opcode.is_jump(),
        ensures
            final(self)@ == step_spec(old(self)@.with_pc(start as nat)).state,
            outcome == step_spec(old(self)@.with_pc(start as nat)).outcome,
    {
        if self.program.len() - self.pc < 1 {
            return self.fault(start, RuntimeFault::TruncatedInstruction { opcode, pc: start });
        }
        let register = self.next_8_bits();
        if register >= 32 {
            return self.fault(
                start,
                RuntimeFault::RegisterOutOfRange { opcode, pc: start, index: register },
            );
        }
        let value = self.registers[register as usize];
        if opcode == Opcode::JMPE && !self.equal_flag {
            assert(self@ =~= step_spec(old(self)@.with_pc(start as nat)).state);
            return Ok(Status::Running);
        }
        if value < 0 {
            return self.fault(start, RuntimeFault::JumpOutOfRange { opcode, pc: start, value });
        }
        let distance = value as usize;
        let target = match opcode {
            Opcode::JMPF => {
                if distance <= self.program.len() - self.pc {
                    Some(self.pc + distance)
                } else {
                    None
                }
            },
            Opcode::JMPB => self.pc.checked_sub(distance),
            _ => {
                if distance <= self.program.len() {
                    Some(distance)
                } else {
                    None
                }
            },
        };
        match target {
            Some(pc) => {
                self.pc = pc;
                assert(self@ =~= step_spec(old(self)@.with_pc(start as nat)).state);
                Ok(Status::Running)
            },
            None => self.fault(start, RuntimeFault::JumpOutOfRange { opcode, pc: start, value }),
        }
    }

    /// Performs one fetch-decode-execute cycle.
    fn execute_instruction(&mut self) -> (outcome: Result<Status, RuntimeFault>)
        ensures
            final(self)@ == step_spec(old(self)@).state,
            outcome == step_spec(old(self)@).outcome,
    {
        if self.pc >= self.program.len() {
            return Ok(Status::Halted(HaltReason::EndOfProgram));
        }
        let start = self.pc;
        let opcode = self.decode_opcode();
        assert(old(self)@.with_pc(self.pc as nat).with_pc(start as nat) == old(self)@);
        match opcode {
            Opcode::LOAD => self.execute_load(start),
            Opcode::ADD | Opcode::SUB | Opcode::MUL | Opcode::DIV => self.execute_arithmetic(
                opcode,
                start,
            ),
            Opcode::HLT => Ok(Status::Halted(HaltReason::HltExecuted)),
            Opcode::JMP | Opcode::JMPF | Opcode::JMPB | Opcode::JMPE => self.execute_jump(
                opcode,
                start,
            ),
            Opcode::EQ
            | Opcode::NEQ
            | Opcode::GTE
            | Opcode::LTE
            | Opcode::LT
            | Opcode::GT => self.execute_comparison(opcode, start),
            Opcode::IGL => Ok(
                Status::Halted(HaltReason::IllegalOpcode { byte: self.program[start] }),
            ),
        }
    }

    /// Performs one fetch-decode-execute cycle and says how it ended.
    ///
    /// A fault leaves the machine as it was before the cycle.
    pub fn run_once(&mut self) -> (outcome: Result<Status, RuntimeFault>)
        ensures
            final(self)@ == step_spec(old(self)@).state,
            outcome == step_spec(old(self)@).outcome,
    {
        self.execute_instruction()
    }

    /// Cycles until the machine halts or faults, but for at most `limit`
    /// cycles; the outcome is `Running` where the machine did neither.
    pub fn run_for(&mut self, limit: u64) -> (outcome: Result<Status, RuntimeFault>)
        ensures
            final(self)@ == run_spec(old(self)@, limit as nat).state,
            outcome == run_spec(old(self)@, limit as nat).outcome,
    {
        let mut left: u64 = limit;
        while left > 0
            invariant
                run_spec(self@, left as nat) == run_spec(old(self)@, limit as nat),
            decreases left,
        {
            let outcome = self.execute_instruction();
            match outcome {
                Ok(Status::Running) => {},
                _ => {
                    return outcome;
                },
            }
            left -= 1;
        }
        Ok(Status::Running)
    }

    /// Cycles until the machine halts or faults. A program that has done
    /// neither after `RUN_LIMIT` cycles is given up, with `Running`.
    pub fn run(&mut self) -> (outcome: Result<Status, RuntimeFault>)
        ensures
            final(self)@ == run_spec(old(self)@, RUN_LIMIT as nat).state,
            outcome == run_spec(old(self)@, RUN_LIMIT as nat).outcome,
    {
        self.run_for(RUN_LIMIT)
    }
}

} // verus!
