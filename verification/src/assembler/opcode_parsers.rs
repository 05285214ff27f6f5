//! The first word of a line: a mnemonic.

use crate::assembler::Token;
use crate::instruction::Opcode;
use crate::text::{alpha1, leading_letters};
use vstd::prelude::*;

verus! {

/// What parsing a mnemonic off the head of a text gives: the rest of the
/// text and the opcode that the letters at its head name.
pub open spec fn opcode_spec(input: Seq<char>) -> Option<(Seq<char>, Token)> {
    match leading_letters(input) {
        Some((rest, letters)) => Some((rest, Token::Op { code: Opcode::of_mnemonic(letters) })),
        None => None,
    }
}

/// Parses a mnemonic off the head of `input`. Every run of letters is
/// taken for a mnemonic; one that names no opcode gives `IGL`. There is
/// no result where `input` does not start with a letter.
pub fn opcode<'a>(input: &'a str) -> (r: Option<(&'a str, Token)>)
    ensures
        match r {
            Some((rest, token)) => {
                &&& opcode_spec(input@) == Some((rest@, token))
                &&& rest@.len() < input@.len()
            },
            None => opcode_spec(input@) is None,
        },
{
    match alpha1(input) {
        Some((rest, letters)) => Some((rest, Token::Op { code: Opcode::from_mnemonic(letters) })),
        None => None,
    }
}

} // verus!
