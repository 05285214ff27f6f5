//! A small register-based virtual machine together with the assembler that
//! produces its byte code.
//!
//! * [`instruction`] holds the opcode table: codes and mnemonics.
//! * [`text`] holds the lexical layer of the assembler.
//! * [`assembler`] parses lines into instructions and encodes them.
//! * [`outcome`] holds what a cycle of the machine can end in.
//! * [`semantics`] states what the machine does, as mathematics.
//! * [`vm`] holds the register machine and its fetch-decode-execute cycle.
//! * [`laws`] proves what holds of every state and every cycle, and that
//!   the machine reads an instruction as the assembler wrote it.
//! * [`repl`] holds the interactive session over one machine.

pub mod assembler;
pub mod instruction;
pub mod laws;
pub mod outcome;
pub mod repl;
pub mod semantics;
pub mod text;
pub mod vm;
