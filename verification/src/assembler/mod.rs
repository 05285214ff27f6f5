//! The assembler: the tokens of a line, the instruction they make up and
//! the bytes that stand for it.

pub mod instruction_parsers;
pub mod opcode_parsers;
pub mod operand_parsers;
pub mod program_parsers;
pub mod register_parsers;

use crate::instruction::Opcode;
use crate::text::{
    decimal_value, digit, leading_digits, lemma_leading_digits, lemma_leading_separators_bound,
    parse_decimal, sp, strip_sigil, without_leading_separators,
};
use vstd::prelude::*;

verus! {

/// The highest register index.
pub const MAX_REGISTER: u32 = 31;

/// The highest value of an integer operand.
pub const MAX_INTEGER: u32 = 65535;

/// The character that starts a register operand.
pub const REGISTER_SIGIL: char = '$';

/// The character that starts an integer operand.
pub const INTEGER_SIGIL: char = '#';

/// One word of a line.
#[derive(Copy, Clone, Debug, PartialEq, Eq)]
pub enum Token {
    Op { code: Opcode },
    Register { reg_num: u8 },
    IntegerOperand { value: u16 },
}

/// Why a text is no instruction.
#[derive(Copy, Clone, Debug, PartialEq, Eq)]
pub enum ParseFault {
    /// The text does not start with a letter.
    ExpectedMnemonic,
    /// An operand does not start with its sigil.
    ExpectedSigil { sigil: char },
    /// No digit follows the sigil of an operand.
    ExpectedDigits,
    /// The number of an operand is larger than `max`.
    NumberOutOfRange { max: u32 },
    /// Something follows the last instruction of a program.
    UnparsedInput,
}

/// Why an instruction has no encoding.
#[derive(Copy, Clone, Debug, PartialEq, Eq)]
pub enum EncodingFault {
    /// The opcode field holds a token that is no opcode.
    NonOpcodeInOpcodeField,
    /// The operand field `position`, counted from 1, holds an opcode.
    OpcodeInOperandField { position: u8 },
}

/// What parsing `sigil` and a number of at most `max` off the head of a
/// text gives: the rest of the text and the number. Separators before the
/// sigil and behind the number are passed over.
pub open spec fn prefixed_number_spec(input: Seq<char>, sigil: char, max: u32) -> Result<
    (Seq<char>, nat),
    ParseFault,
> {
    let start = without_leading_separators(input);
    if start.len() == 0 || start[0] != sigil {
        Err(ParseFault::ExpectedSigil { sigil })
    } else {
        let body = start.drop_first();
        let n = leading_digits(body) as int;
        if n == 0 {
            Err(ParseFault::ExpectedDigits)
        } else if decimal_value(body.take(n)) > max {
            Err(ParseFault::NumberOutOfRange { max })
        } else {
            Ok((without_leading_separators(body.skip(n)), decimal_value(body.take(n))))
        }
    }
}

/// A number that was parsed off the head of a text took at least its
/// sigil and one digit from it.
pub proof fn lemma_prefixed_number_consumes(input: Seq<char>, sigil: char, max: u32)
    requires
        prefixed_number_spec(input, sigil, max) is Ok,
    ensures
        prefixed_number_spec(input, sigil, max)->Ok_0.0.len() + 2 <= input.len(),
{
    lemma_leading_separators_bound(input);
    let start = without_leading_separators(input);
    let body = start.drop_first();
    lemma_leading_digits(body);
    lemma_leading_separators_bound(body.skip(leading_digits(body) as int));
}

/// Parses `sigil` and a decimal number of at most `max` off the head of
/// `input`.
pub fn prefixed_number<'a>(input: &'a str, sigil: char, max: u32) -> (r: Result<
    (&'a str, u32),
    ParseFault,
>)
    ensures
        match r {
            Ok((rest, value)) => {
                &&& prefixed_number_spec(input@, sigil, max) == Ok::<
                    (Seq<char>, nat),
                    ParseFault,
                >((rest@, value as nat))
                &&& value <= max
                &&& rest@.len() < input@.len()
            },
            Err(fault) => prefixed_number_spec(input@, sigil, max) == Err::<
                (Seq<char>, nat),
                ParseFault,
            >(fault),
        },
{
    let start = sp(input);
    let body = match strip_sigil(start, sigil) {
        Some(body) => body,
        None => {
            return Err(ParseFault::ExpectedSigil { sigil });
        },
    };
    let (rest, digits) = match digit(body) {
        Some(split) => split,
        None => {
            return Err(ParseFault::ExpectedDigits);
        },
    };
    proof {
        lemma_leading_digits(body@);
    }
    match parse_decimal(digits, max) {
        Some(value) => {
            proof {
                lemma_prefixed_number_consumes(input@, sigil, max);
            }
            Ok((sp(rest), value))
        },
        None => Err(ParseFault::NumberOutOfRange { max }),
    }
}

} // verus!
