//! A register operand: `$` and the index of the register.

use crate::assembler::{
    prefixed_number, prefixed_number_spec, ParseFault, Token, MAX_REGISTER, REGISTER_SIGIL,
};
use vstd::prelude::*;

verus! {

/// What parsing a register operand off the head of a text gives.
pub open spec fn register_spec(input: Seq<char>) -> Result<(Seq<char>, Token), ParseFault> {
    match prefixed_number_spec(input, REGISTER_SIGIL, MAX_REGISTER) {
        Ok((rest, index)) => Ok((rest, Token::Register { reg_num: index as u8 })),
        Err(fault) => Err(fault),
    }
}

/// Parses a register operand off the head of `input`: `$` and a decimal
/// index of at most 31, with separators before and behind.
pub fn register<'a>(input: &'a str) -> (r: Result<(&'a str, Token), ParseFault>)
    ensures
        match r {
            Ok((rest, token)) => {
                &&& register_spec(input@) == Ok::<(Seq<char>, Token), ParseFault>((rest@, token))
                &&& rest@.len() < input@.len()
            },
            Err(fault) => register_spec(input@) == Err::<(Seq<char>, Token), ParseFault>(fault),
        },
        r matches Ok((_, token)) ==> token matches Token::Register { reg_num } && reg_num
            <= MAX_REGISTER,
{
    match prefixed_number(input, REGISTER_SIGIL, MAX_REGISTER) {
        Ok((rest, index)) => Ok((rest, Token::Register { reg_num: index as u8 })),
        Err(fault) => Err(fault),
    }
}

} // verus!
