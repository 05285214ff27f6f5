//! What holds of every state of the machine and of every cycle.

use crate::assembler::instruction_parsers::AssemblerInstruction;
use crate::assembler::Token;
use crate::instruction::Opcode;
use crate::outcome::{HaltReason, RuntimeFault, Status};
use crate::semantics::{
    advanced, big_endian_u16, instruction_width, magnitude, run_spec, step_spec,
    truncated_quotient, truncated_remainder, VMState, REGISTER_COUNT,
};
use vstd::prelude::*;

verus! {

/// The state after `n` cycles, whatever their outcomes.
pub open spec fn state_after(s: VMState, n: nat) -> VMState
    decreases n,
{
    if n == 0 {
        s
    } else {
        step_spec(state_after(s, (n - 1) as nat)).state
    }
}

/// The next cycle executes an instruction that is no jump and does not
/// fault.
pub open spec fn plain_cycle(s: VMState) -> bool {
    &&& s.pc < s.program.len()
    &&& !s.current_opcode().is_jump()
    &&& step_spec(s).outcome is Ok
}

/// Each of the first `n` cycles from `s` is a plain cycle.
pub open spec fn plain_cycles(s: VMState, n: nat) -> bool {
    forall|k: nat| k < n ==> plain_cycle(#[trigger] state_after(s, k))
}

/// A machine whose program counter stands at or behind the end of its
/// program is halted: a cycle changes nothing, and says so.
pub proof fn lemma_halted_cycle_changes_nothing(s: VMState)
    requires
        s.pc >= s.program.len(),
    ensures
        step_spec(s).state == s,
        step_spec(s).outcome == Ok::<Status, RuntimeFault>(
            Status::Halted(HaltReason::EndOfProgram),
        ),
{
}

/// A halted machine stays halted however often it is cycled, and a run of
/// any length leaves it as it is.
pub proof fn lemma_halted_machine_stays_halted(s: VMState, n: nat)
    requires
        s.pc >= s.program.len(),
    ensures
        state_after(s, n) == s,
        n > 0 ==> run_spec(s, n) == step_spec(s),
    decreases n,
{
    if n > 0 {
        lemma_halted_machine_stays_halted(s, (n - 1) as nat);
    }
}

/// A byte that names no operation halts the machine behind that byte and
/// changes nothing else.
pub proof fn lemma_illegal_byte_halts(s: VMState)
    requires
        s.pc < s.program.len(),
        s.current_opcode() == Opcode::IGL,
    ensures
        step_spec(s).state == s.with_pc(s.pc + 1),
        step_spec(s).outcome == Ok::<Status, RuntimeFault>(
            Status::Halted(HaltReason::IllegalOpcode { byte: s.program[s.pc as int] }),
        ),
{
}

/// A cycle that faults leaves the machine as it was.
pub proof fn lemma_fault_changes_nothing(s: VMState)
    requires
        step_spec(s).outcome is Err,
    ensures
        step_spec(s).state == s,
{
}

/// A cycle never changes the program, and it keeps the register file
/// whole.
pub proof fn lemma_cycle_keeps_program(s: VMState)
    requires
        s.well_formed(),
    ensures
        step_spec(s).state.program == s.program,
        step_spec(s).state.well_formed(),
{
}

/// A program counter inside the program or at its end stays there.
pub proof fn lemma_cycle_keeps_pc_in_program(s: VMState)
    requires
        s.pc_in_program(),
    ensures
        step_spec(s).state.pc_in_program(),
{
}

/// Only `DIV` writes the remainder register, and only a comparison writes
/// the equal flag.
pub proof fn lemma_who_writes_remainder_and_flag(s: VMState)
    requires
        s.pc < s.program.len(),
    ensures
        s.current_opcode() != Opcode::DIV ==> step_spec(s).state.remainder == s.remainder,
        !({
            let op = s.current_opcode();
            op == Opcode::EQ || op == Opcode::NEQ || op == Opcode::GTE || op == Opcode::LTE || op
                == Opcode::LT || op == Opcode::GT
        }) ==> step_spec(s).state.equal_flag == s.equal_flag,
{
}

/// An instruction that is no jump and does not fault moves the program
/// counter forward by exactly its own width.
pub proof fn lemma_plain_cycle_advances_pc(s: VMState)
    requires
        plain_cycle(s),
    ensures
        step_spec(s).state.pc == s.pc + instruction_width(s.current_opcode()),
        step_spec(s).state.pc > s.pc,
{
}

/// Over cycles that execute no jump and do not fault, the program counter
/// is strictly increasing.
pub proof fn lemma_pc_strictly_increasing(s: VMState, i: nat, j: nat)
    requires
        i < j,
        plain_cycles(s, j),
    ensures
        state_after(s, i).pc < state_after(s, j).pc,
    decreases j,
{
    let before = state_after(s, (j - 1) as nat);
    assert(plain_cycle(before));
    lemma_plain_cycle_advances_pc(before);
    if i < j - 1 {
        assert forall|k: nat| k < (j - 1) as nat implies plain_cycle(
            #[trigger] state_after(s, k),
        ) by {}
        lemma_pc_strictly_increasing(s, i, (j - 1) as nat);
    }
}

/// A run of `n + 1` cycles is one cycle and, where the machine goes on,
/// a run of `n` cycles from there on.
pub proof fn lemma_run_unfolds(s: VMState, n: nat)
    ensures
        run_spec(s, n + 1) == (if step_spec(s).outcome == Ok::<Status, RuntimeFault>(
            Status::Running,
        ) {
            run_spec(step_spec(s).state, n)
        } else {
            step_spec(s)
        }),
{
}

/// A run is a number of cycles: its state is the one after `n` cycles, for
/// the `n <= limit` that the proof returns.
pub proof fn lemma_run_is_iterated_cycle(s: VMState, limit: nat) -> (n: nat)
    ensures
        n <= limit,
        run_spec(s, limit).state == state_after(s, n),
    decreases limit,
{
    if limit == 0 {
        0
    } else {
        let first = step_spec(s);
        assert(state_after(s, 1) == step_spec(state_after(s, 0)).state);
        if first.outcome == Ok::<Status, RuntimeFault>(Status::Running) {
            let n = lemma_run_is_iterated_cycle(first.state, (limit - 1) as nat);
            lemma_state_after_shifts(s, n);
            n + 1
        } else {
            1
        }
    }
}

/// A run that ended in a halt or a fault does not depend on its limit:
/// with any higher limit it ends in the same state, with the same outcome.
pub proof fn lemma_ended_run_ignores_limit(s: VMState, limit: nat, higher: nat)
    requires
        run_spec(s, limit).outcome != Ok::<Status, RuntimeFault>(Status::Running),
        limit <= higher,
    ensures
        run_spec(s, higher) == run_spec(s, limit),
    decreases limit,
{
    if limit > 0 {
        let first = step_spec(s);
        if first.outcome == Ok::<Status, RuntimeFault>(Status::Running) {
            lemma_ended_run_ignores_limit(first.state, (limit - 1) as nat, (higher - 1) as nat);
        }
    }
}

/// A run never changes the program, and it keeps the register file
/// whole.
pub proof fn lemma_run_keeps_program(s: VMState, limit: nat)
    requires
        s.well_formed(),
    ensures
        run_spec(s, limit).state.program == s.program,
        run_spec(s, limit).state.well_formed(),
    decreases limit,
{
    if limit > 0 {
        lemma_cycle_keeps_program(s);
        if step_spec(s).outcome == Ok::<Status, RuntimeFault>(Status::Running) {
            lemma_run_keeps_program(step_spec(s).state, (limit - 1) as nat);
        }
    }
}

/// `n` cycles after the first are `n + 1` cycles.
pub proof fn lemma_state_after_shifts(s: VMState, n: nat)
    ensures
        state_after(step_spec(s).state, n) == state_after(s, n + 1),
    decreases n,
{
    if n == 0 {
        assert(state_after(s, 1) == step_spec(state_after(s, 0)).state);
    } else {
        lemma_state_after_shifts(s, (n - 1) as nat);
    }
}

/// The quotient and the remainder of a truncating division make up the
/// dividend; the remainder is smaller in magnitude than the divisor and
/// has the sign of the dividend.
pub proof fn lemma_truncated_division(x: int, y: int)
    requires
        y != 0,
    ensures
        x == y * truncated_quotient(x, y) + truncated_remainder(x, y),
        magnitude(truncated_remainder(x, y)) < magnitude(y),
        x >= 0 ==> truncated_remainder(x, y) >= 0,
        x <= 0 ==> truncated_remainder(x, y) <= 0,
{
    let a = magnitude(x);
    let b = magnitude(y);
    vstd::arithmetic::div_mod::lemma_fundamental_div_mod(a, b);
    vstd::arithmetic::div_mod::lemma_mod_bound(a, b);
    let q = a / b;
    let r = a % b;
    assert(a == b * q + r);
    assert(y * truncated_quotient(x, y) + truncated_remainder(x, y) == x) by (nonlinear_arith)
        requires
            a == b * q + r,
            a == magnitude(x),
            b == magnitude(y),
            y != 0,
            truncated_quotient(x, y) == (if (x < 0) == (y < 0) {
                q
            } else {
                -q
            }),
            truncated_remainder(x, y) == (if x < 0 {
                -r
            } else {
                r
            }),
    ;
}

/// The two bytes of a 16-bit value, high byte first, give the value back.
pub proof fn lemma_big_endian_round_trip(value: u16)
    ensures
        big_endian_u16((value / 256) as u8, (value % 256) as u8) == value,
{
}

/// The bytes at the program counter are `bytes`.
pub open spec fn fetches(s: VMState, bytes: Seq<u8>) -> bool {
    &&& s.pc + bytes.len() <= s.program.len()
    &&& s.program.subrange(s.pc as int, s.pc as int + bytes.len()) == bytes
}

/// Assembling a `LOAD` and executing it puts the integer into the
/// register and moves the program counter behind the instruction.
pub proof fn lemma_load_round_trip(s: VMState, register: u8, value: u16)
    requires
        register < REGISTER_COUNT,
        fetches(
            s,
            (AssemblerInstruction {
                label: None,
                opcode: Token::Op { code: Opcode::LOAD },
                operand1: Some(Token::Register { reg_num: register }),
                operand2: Some(Token::IntegerOperand { value }),
                operand3: None,
            }).encoding()->Ok_0,
        ),
    ensures
        step_spec(s) == advanced(s.with_register(register as int, value as i32).with_pc(s.pc + 4)),
{
    let ins = AssemblerInstruction {
        label: None,
        opcode: Token::Op { code: Opcode::LOAD },
        operand1: Some(Token::Register { reg_num: register }),
        operand2: Some(Token::IntegerOperand { value }),
        operand3: None,
    };
    let bytes = ins.encoding()->Ok_0;
    assert(bytes.len() == 4);
    assert forall|k: int| 0 <= k < 4 implies s.program[s.pc + k] == #[trigger] bytes[k] by {
        assert(s.program.subrange(s.pc as int, s.pc as int + 4)[k] == s.program[s.pc + k]);
    }
    assert(bytes[0] == 0 && bytes[1] == register);
    assert(bytes[2] == (value / 256) as u8 && bytes[3] == (value % 256) as u8);
    lemma_big_endian_round_trip(value);
}

/// The machine takes an instruction as the assembler wrote it: a cycle
/// that executes the encoding of an instruction whose operands fit its
/// opcode, and that neither jumps nor faults, moves the program counter
/// by exactly the length of that encoding.
pub proof fn lemma_cycle_takes_whole_encoding(s: VMState, ins: AssemblerInstruction)
    requires
        ins.fits_opcode(),
        fetches(s, ins.encoding()->Ok_0),
        !(ins.opcode->Op_code).is_jump(),
        step_spec(s).outcome is Ok,
    ensures
        s.current_opcode() == ins.opcode->Op_code,
        step_spec(s).state.pc == s.pc + ins.encoding()->Ok_0.len(),
{
    let bytes = ins.encoding()->Ok_0;
    assert(bytes.len() >= 1);
    assert(s.program.subrange(s.pc as int, s.pc as int + bytes.len())[0] == s.program[s.pc as int]);
    crate::instruction::lemma_decode_inverts_encode(ins.opcode->Op_code);
}

} // verus!
