//! A program: the instructions of a text, one behind the other.

use crate::assembler::instruction_parsers::{instruction, instruction_spec, AssemblerInstruction};
use crate::assembler::{EncodingFault, ParseFault};
use vstd::prelude::*;

verus! {

/// The instructions of a text, in their order.
#[derive(Debug, PartialEq)]
pub struct Program {
    pub instructions: Vec<AssemblerInstruction>,
}

/// Why a text could not be assembled.
#[derive(Copy, Clone, Debug, PartialEq, Eq)]
pub enum AssemblyFault {
    Parse(ParseFault),
    Encoding(EncodingFault),
}

/// The encodings of `instructions`, one behind the other. Where one of
/// them has no encoding, the fault of the first such is the result.
pub open spec fn encoding_of_all(instructions: Seq<AssemblerInstruction>) -> Result<
    Seq<u8>,
    EncodingFault,
>
    decreases instructions.len(),
{
    if instructions.len() == 0 {
        Ok(Seq::empty())
    } else {
        match encoding_of_all(instructions.drop_last()) {
            Ok(bytes) => match instructions.last().encoding() {
                Ok(more) => Ok(bytes + more),
                Err(fault) => Err(fault),
            },
            Err(fault) => Err(fault),
        }
    }
}

/// The instructions at the head of a text, as many as there are, and the
/// rest of the text. An instruction takes at least one character.
pub open spec fn instructions_spec(input: Seq<char>) -> (Seq<char>, Seq<AssemblerInstruction>)
    decreases input.len(),
{
    match instruction_spec(input) {
        Ok((rest, ins)) => {
            if rest.len() < input.len() {
                let (end, more) = instructions_spec(rest);
                (end, seq![ins] + more)
            } else {
                (input, Seq::empty())
            }
        },
        Err(_) => (input, Seq::empty()),
    }
}

/// What parsing a program off the head of a text gives: its instructions,
/// at least one, and the rest of the text.
pub open spec fn program_spec(input: Seq<char>) -> Result<
    (Seq<char>, Seq<AssemblerInstruction>),
    ParseFault,
> {
    match instruction_spec(input) {
        Ok(_) => Ok(instructions_spec(input)),
        Err(fault) => Err(fault),
    }
}

/// What assembling a text gives: the bytes of its instructions, where the
/// whole text is a program and each instruction has an encoding.
pub open spec fn assemble_spec(source: Seq<char>) -> Result<Seq<u8>, AssemblyFault> {
    match program_spec(source) {
        Ok((rest, instructions)) => {
            if rest.len() > 0 {
                Err(AssemblyFault::Parse(ParseFault::UnparsedInput))
            } else {
                match encoding_of_all(instructions) {
                    Ok(bytes) => Ok(bytes),
                    Err(fault) => Err(AssemblyFault::Encoding(fault)),
                }
            }
        },
        Err(fault) => Err(AssemblyFault::Parse(fault)),
    }
}

impl Program {
    /// The encoding of the program.
    pub open spec fn encoding(self) -> Result<Seq<u8>, EncodingFault> {
        encoding_of_all(self.instructions@)
    }

    /// Encodes the program: the bytes of its instructions, one behind the
    /// other.
    pub fn to_bytes(&self) -> (r: Result<Vec<u8>, EncodingFault>)
        ensures
            match r {
                Ok(bytes) => self.encoding() == Ok::<Seq<u8>, EncodingFault>(bytes@),
                Err(fault) => self.encoding() == Err::<Seq<u8>, EncodingFault>(fault),
            },
    {
        let mut program: Vec<u8> = Vec::new();
        let mut i: usize = 0;
        assert(self.instructions@.take(0) =~= Seq::<AssemblerInstruction>::empty());
        while i < self.instructions.len()
            invariant
                i <= self.instructions.len(),
                encoding_of_all(self.instructions@.take(i as int)) == Ok::<Seq<u8>, EncodingFault>(
                    program@,
                ),
            decreases self.instructions.len() - i,
        {
            proof {
                assert(self.instructions@.take(i + 1).drop_last() =~= self.instructions@.take(
                    i as int,
                ));
                if self.instructions[i as int].encoding() is Err {
                    lemma_fault_stays(self.instructions@, i + 1);
                }
            }
            match self.instructions[i].to_bytes() {
                Ok(mut bytes) => {
                    program.append(&mut bytes);
                },
                Err(fault) => {
                    return Err(fault);
                },
            }
            i += 1;
        }
        assert(self.instructions@.take(i as int) =~= self.instructions@);
        Ok(program)
    }
}

/// Where the instructions up to `i` have no encoding, the whole program
/// has none, for the same fault.
pub proof fn lemma_fault_stays(instructions: Seq<AssemblerInstruction>, i: int)
    requires
        0 <= i <= instructions.len(),
        encoding_of_all(instructions.take(i)) is Err,
    ensures
        encoding_of_all(instructions) == encoding_of_all(instructions.take(i)),
    decreases instructions.len() - i,
{
    if i < instructions.len() {
        assert(instructions.take(i + 1).drop_last() =~= instructions.take(i));
        lemma_fault_stays(instructions, i + 1);
    } else {
        assert(instructions.take(i) =~= instructions);
    }
}

/// Parses a program off the head of `input`: as many instructions as
/// there are, but at least one. What follows the last of them is handed
/// back unread.
pub fn program<'a>(input: &'a str) -> (r: Result<(&'a str, Program), ParseFault>)
    ensures
        match r {
            Ok((rest, program)) => {
                &&& program_spec(input@) == Ok::<
                    (Seq<char>, Seq<AssemblerInstruction>),
                    ParseFault,
                >((rest@, program.instructions@))
                &&& program.instructions@.len() > 0
            },
            Err(fault) => program_spec(input@) == Err::<
                (Seq<char>, Seq<AssemblerInstruction>),
                ParseFault,
            >(fault),
        },
{
    let (first_rest, first) = match instruction(input) {
        Ok(parsed) => parsed,
        Err(fault) => {
            return Err(fault);
        },
    };
    let mut instructions: Vec<AssemblerInstruction> = Vec::new();
    instructions.push(first);
    let mut rest = first_rest;
    assert(instructions@ + instructions_spec(rest@).1 =~= seq![first] + instructions_spec(
        rest@,
    ).1);
    loop
        invariant
            instructions@.len() > 0,
            instructions_spec(input@) == (
                instructions_spec(rest@).0,
                instructions@ + instructions_spec(rest@).1,
            ),
        ensures
            instructions@.len() > 0,
            instructions_spec(input@) == (rest@, instructions@),
        decreases rest@.len(),
    {
        match instruction(rest) {
            Ok((after, ins)) => {
                assert(instructions@.push(ins) + instructions_spec(after@).1 =~= instructions@ + (
                    seq![ins] + instructions_spec(after@).1));
                instructions.push(ins);
                rest = after;
            },
            Err(_) => {
                assert(instructions@ + Seq::<AssemblerInstruction>::empty() =~= instructions@);
                break;
            },
        }
    }
    Ok((rest, Program { instructions }))
}

/// Assembles `source`: parses it as a program and encodes that. Nothing
/// may follow the last instruction.
pub fn assemble(source: &str) -> (r: Result<Vec<u8>, AssemblyFault>)
    ensures
        match r {
            Ok(bytes) => assemble_spec(source@) == Ok::<Seq<u8>, AssemblyFault>(bytes@),
            Err(fault) => assemble_spec(source@) == Err::<Seq<u8>, AssemblyFault>(fault),
        },
{
    let (rest, program) = match program(source) {
        Ok(parsed) => parsed,
        Err(fault) => {
            return Err(AssemblyFault::Parse(fault));
        },
    };
    if !rest.is_empty() {
        return Err(AssemblyFault::Parse(ParseFault::UnparsedInput));
    }
    match program.to_bytes() {
        Ok(bytes) => Ok(bytes),
        Err(fault) => Err(AssemblyFault::Encoding(fault)),
    }
}

} // verus!
