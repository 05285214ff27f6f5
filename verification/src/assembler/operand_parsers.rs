//! An integer operand: `#` and the value.

use crate::assembler::{
    prefixed_number, prefixed_number_spec, ParseFault, Token, INTEGER_SIGIL, MAX_INTEGER,
};
use vstd::prelude::*;

verus! {

/// What parsing an integer operand off the head of a text gives.
pub open spec fn integer_operand_spec(input: Seq<char>) -> Result<(Seq<char>, Token), ParseFault> {
    match prefixed_number_spec(input, INTEGER_SIGIL, MAX_INTEGER) {
        Ok((rest, value)) => Ok((rest, Token::IntegerOperand { value: value as u16 })),
        Err(fault) => Err(fault),
    }
}

/// Parses an integer operand off the head of `input`: `#` and a decimal
/// value of at most 65535, with separators before and behind.
pub fn integer_operand<'a>(input: &'a str) -> (r: Result<(&'a str, Token), ParseFault>)
    ensures
        match r {
            Ok((rest, token)) => {
                &&& integer_operand_spec(input@) == Ok::<(Seq<char>, Token), ParseFault>(
                    (rest@, token),
                )
                &&& rest@.len() < input@.len()
            },
            Err(fault) => integer_operand_spec(input@) == Err::<(Seq<char>, Token), ParseFault>(
                fault,
            ),
        },
{
    match prefixed_number(input, INTEGER_SIGIL, MAX_INTEGER) {
        Ok((rest, value)) => Ok((rest, Token::IntegerOperand { value: value as u16 })),
        Err(fault) => Err(fault),
    }
}

} // verus!
