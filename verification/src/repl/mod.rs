//! The interactive session: one machine that lives as long as the session,
//! and what each line typed does to it.

use crate::assembler::program_parsers::{assemble, assemble_spec, AssemblyFault};
use crate::outcome::{RuntimeFault, Status};
use crate::semantics::{step_spec, VMState};
use crate::text::same_text;
use crate::vm::VM;
use vstd::prelude::*;

verus! {

/// A session: the lines typed so far and the machine they ran on.
#[derive(Debug)]
pub struct REPL {
    pub command_buffer: Vec<String>,
    pub vm: VM,
}

/// What a line asked for, and what became of it.
#[derive(Copy, Clone, Debug, PartialEq, Eq)]
pub enum Reply {
    /// `.quit`: the session is to end.
    Quit,
    /// `.history`: the lines typed so far are to be shown.
    History,
    /// `.registers`: the registers are to be shown.
    Registers,
    /// The line is no program. The machine is as it was.
    Rejected(AssemblyFault),
    /// The line was assembled and appended to the program, and the
    /// machine did one cycle, with this outcome.
    Executed(Result<Status, RuntimeFault>),
}

/// A line without the white space at its head and at its end.
pub uninterp spec fn trimmed(line: Seq<char>) -> Seq<char>;

/// The line without the white space around it.
///
/// Calls `str::trim`. The contract names what it returns; which
/// characters are white space is Unicode's matter.
#[verifier::external_body]
fn trim<'a>(line: &'a str) -> (command: &'a str)
    ensures
        command@ == trimmed(line@),
{
    line.trim()
}

/// What a command does to a machine, and the reply to it.
pub open spec fn eval_spec(vm: VMState, command: Seq<char>) -> (VMState, Reply) {
    if command == ".quit"@ {
        (vm, Reply::Quit)
    } else if command == ".history"@ {
        (vm, Reply::History)
    } else if command == ".registers"@ {
        (vm, Reply::Registers)
    } else {
        match assemble_spec(command) {
            Ok(bytes) => {
                let step = step_spec(vm.with_appended(bytes));
                (step.state, Reply::Executed(step.outcome))
            },
            Err(fault) => (vm, Reply::Rejected(fault)),
        }
    }
}

impl Default for REPL {
    /// A session with a new machine, in which nothing was typed yet.
    fn default() -> (repl: REPL)
        ensures
            repl.history() == Seq::<Seq<char>>::empty(),
            repl.vm@ == VMState::initial(),
    {
        let repl = REPL { command_buffer: Vec::new(), vm: VM::default() };
        assert(repl.history() =~= Seq::<Seq<char>>::empty());
        repl
    }
}

impl REPL {
    /// The lines typed so far, each without the white space around it.
    pub open spec fn history(self) -> Seq<Seq<char>> {
        Seq::new(self.command_buffer@.len(), |i: int| self.command_buffer@[i]@)
    }

    /// Takes one line as it was typed: the white space around it is
    /// dropped, and what is left is executed as a command.
    pub fn eval(&mut self, line: &str) -> (reply: Reply)
        ensures
            final(self).history() == old(self).history().push(trimmed(line@)),
            final(self).vm@ == eval_spec(old(self).vm@, trimmed(line@)).0,
            reply == eval_spec(old(self).vm@, trimmed(line@)).1,
    {
        self.execute(trim(line))
    }

    /// Executes one command: notes it in the history, then does what it
    /// asks for. A command that is none of the session's own is assembled;
    /// its bytes are appended to the program of the machine, which then
    /// does exactly one cycle from where its program counter stands. A
    /// command that cannot be assembled changes nothing in the machine.
    pub fn execute(&mut self, command: &str) -> (reply: Reply)
        ensures
            final(self).history() == old(self).history().push(command@),
            final(self).vm@ == eval_spec(old(self).vm@, command@).0,
            reply == eval_spec(old(self).vm@, command@).1,
    {
        self.command_buffer.push(command.to_owned());
        assert(self.history() =~= old(self).history().push(command@));
        if same_text(command, ".quit") {
            Reply::Quit
        } else if same_text(command, ".history") {
            Reply::History
        } else if same_text(command, ".registers") {
            Reply::Registers
        } else {
            match assemble(command) {
                Ok(bytes) => {
                    self.vm.add_bytes(&bytes);
                    Reply::Executed(self.vm.run_once())
                },
                Err(fault) => Reply::Rejected(fault),
            }
        }
    }
}

} // verus!
