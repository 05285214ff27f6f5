use alvm::assembler::program_parsers::AssemblyFault;
use alvm::assembler::ParseFault;
use alvm::outcome::{HaltReason, RuntimeFault, Status};
use alvm::repl::{Reply, REPL};

#[test]
fn test_new_session() {
    let repl = REPL::default();
    assert!(repl.command_buffer.is_empty());
    assert_eq!(repl.vm.pc, 0);
    assert!(repl.vm.program.is_empty());
    assert_eq!(repl.vm.registers, [0i32; 32]);
}

#[test]
fn test_session_commands() {
    let mut repl = REPL::default();
    assert_eq!(repl.eval(".history\n"), Reply::History);
    assert_eq!(repl.eval("  .registers  "), Reply::Registers);
    assert_eq!(repl.eval(".quit"), Reply::Quit);
    assert_eq!(repl.command_buffer, vec![".history", ".registers", ".quit"]);
    assert!(repl.vm.program.is_empty());
    assert_eq!(repl.vm.pc, 0);
}

#[test]
fn test_line_is_assembled_and_one_cycle_runs() {
    let mut repl = REPL::default();
    assert_eq!(repl.eval("load $0 #100\n"), Reply::Executed(Ok(Status::Running)));
    assert_eq!(repl.vm.registers[0], 100);
    assert_eq!(repl.vm.pc, 4);
    assert_eq!(repl.vm.program, vec![0, 0, 0, 100]);
    assert_eq!(repl.command_buffer, vec!["load $0 #100"]);
}

#[test]
fn test_session_keeps_registers_and_pc() {
    let mut repl = REPL::default();
    assert_eq!(repl.eval("load $0 #100"), Reply::Executed(Ok(Status::Running)));
    assert_eq!(repl.eval("load $1 #200"), Reply::Executed(Ok(Status::Running)));
    assert_eq!(repl.eval("add $0 $1 $2"), Reply::Executed(Ok(Status::Running)));
    assert_eq!(repl.vm.registers[0], 100);
    assert_eq!(repl.vm.registers[1], 200);
    assert_eq!(repl.vm.registers[2], 300);
    assert_eq!(repl.vm.pc, 12);
    assert_eq!(repl.eval("hlt"), Reply::Executed(Ok(Status::Halted(HaltReason::HltExecuted))));
    assert_eq!(repl.vm.pc, 13);
    assert_eq!(repl.vm.program.len(), 13);
}

#[test]
fn test_only_one_cycle_runs_for_a_line() {
    let mut repl = REPL::default();
    assert_eq!(repl.eval("load $0 #1 load $1 #2"), Reply::Executed(Ok(Status::Running)));
    assert_eq!(repl.vm.program.len(), 8);
    assert_eq!(repl.vm.pc, 4);
    assert_eq!(repl.vm.registers[1], 0);
    assert_eq!(repl.eval("hlt"), Reply::Executed(Ok(Status::Running)));
    assert_eq!(repl.vm.registers[1], 2);
    assert_eq!(repl.vm.pc, 8);
}

#[test]
fn test_rejected_line_changes_nothing_in_the_machine() {
    let mut repl = REPL::default();
    assert_eq!(repl.eval("load $0 #7"), Reply::Executed(Ok(Status::Running)));
    assert_eq!(
        repl.eval("#what"),
        Reply::Rejected(AssemblyFault::Parse(ParseFault::ExpectedMnemonic))
    );
    assert_eq!(repl.eval(""), Reply::Rejected(AssemblyFault::Parse(ParseFault::ExpectedMnemonic)));
    assert_eq!(
        repl.eval("load $0 #100 ???"),
        Reply::Rejected(AssemblyFault::Parse(ParseFault::UnparsedInput))
    );
    assert_eq!(repl.vm.program, vec![0, 0, 0, 7]);
    assert_eq!(repl.vm.pc, 4);
    assert_eq!(repl.vm.registers[0], 7);
    assert_eq!(repl.command_buffer.len(), 4);
}

#[test]
fn test_fault_is_reported_and_session_goes_on() {
    let mut repl = REPL::default();
    assert_eq!(
        repl.eval("div $0 $1 $2"),
        Reply::Executed(Err(RuntimeFault::DivisionByZero { pc: 0, divisor: 1 }))
    );
    assert_eq!(repl.vm.pc, 0);
    assert_eq!(repl.vm.program, vec![4, 0, 1, 2]);
    assert_eq!(repl.eval(".registers"), Reply::Registers);
}

#[test]
fn test_later_jump_reaches_earlier_bytes() {
    let mut repl = REPL::default();
    assert_eq!(repl.eval("load $1 #6"), Reply::Executed(Ok(Status::Running)));
    assert_eq!(repl.eval("jmpb $1"), Reply::Executed(Ok(Status::Running)));
    assert_eq!(repl.vm.pc, 0);
}

#[test]
fn test_trim_takes_white_space_of_any_kind() {
    let mut repl = REPL::default();
    assert_eq!(repl.eval("\u{a0}\t.quit\u{2003}\r\n"), Reply::Quit);
    assert_eq!(repl.command_buffer, vec![".quit"]);
}
