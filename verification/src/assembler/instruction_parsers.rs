//! One instruction of a line: its forms, and the bytes that stand for it.

use crate::assembler::opcode_parsers::{opcode, opcode_spec};
use crate::assembler::operand_parsers::{integer_operand, integer_operand_spec};
use crate::assembler::register_parsers::{register, register_spec};
use crate::assembler::{EncodingFault, ParseFault, Token, MAX_REGISTER, REGISTER_SIGIL};
use crate::instruction::Opcode;
use crate::semantics::instruction_width;
use crate::text::{lemma_leading_separators_bound, multispace, without_leading_separators};
use vstd::prelude::*;
use vstd::string::StrSliceExecFns;

verus! {

/// An instruction as the assembler reads it: an opcode and up to three
/// operands. The label is kept for later use and is not encoded.
#[derive(Debug, PartialEq)]
pub struct AssemblerInstruction {
    pub label: Option<String>,
    pub opcode: Token,
    pub operand1: Option<Token>,
    pub operand2: Option<Token>,
    pub operand3: Option<Token>,
}

/// The bytes of an operand: one for a register, two for an integer, high
/// byte first. An opcode is no operand and has none.
pub open spec fn operand_encoding(token: Token) -> Seq<u8> {
    match token {
        Token::Register { reg_num } => seq![reg_num],
        Token::IntegerOperand { value } => seq![(value / 256) as u8, (value % 256) as u8],
        Token::Op { code } => Seq::empty(),
    }
}

/// The bytes of an operand field; an empty field has none.
pub open spec fn field_encoding(field: Option<Token>) -> Seq<u8> {
    match field {
        Some(token) => operand_encoding(token),
        None => Seq::empty(),
    }
}

/// Whether an operand field holds an opcode.
pub open spec fn holds_opcode(field: Option<Token>) -> bool {
    field matches Some(Token::Op { code })
}

/// An instruction without label and operands.
pub open spec fn bare(opcode: Token) -> AssemblerInstruction {
    AssemblerInstruction { label: None, opcode, operand1: None, operand2: None, operand3: None }
}

impl AssemblerInstruction {
    /// The encoding of the instruction: the code of its opcode, then the
    /// bytes of its operands in order. There is none where the opcode
    /// field holds no opcode, or an operand field holds one; of several
    /// such operand fields the first is reported.
    pub open spec fn encoding(self) -> Result<Seq<u8>, EncodingFault> {
        match self.opcode {
            Token::Op { code } => {
                if holds_opcode(self.operand1) {
                    Err(EncodingFault::OpcodeInOperandField { position: 1 })
                } else if holds_opcode(self.operand2) {
                    Err(EncodingFault::OpcodeInOperandField { position: 2 })
                } else if holds_opcode(self.operand3) {
                    Err(EncodingFault::OpcodeInOperandField { position: 3 })
                } else {
                    Ok(
                        seq![code.code()] + field_encoding(self.operand1) + field_encoding(
                            self.operand2,
                        ) + field_encoding(self.operand3),
                    )
                }
            },
            _ => Err(EncodingFault::NonOpcodeInOpcodeField),
        }
    }

    /// The operands are those that the machine reads behind the opcode:
    /// a register and an integer for `LOAD`, one register for a jump,
    /// three registers for arithmetic and for a comparison, none for
    /// `HLT` and `IGL`.
    pub open spec fn fits_opcode(self) -> bool {
        match self.opcode {
            Token::Op { code } => match code {
                Opcode::HLT | Opcode::IGL => {
                    self.operand1 is None && self.operand2 is None && self.operand3 is None
                },
                Opcode::LOAD => {
                    &&& self.operand1 matches Some(Token::Register { reg_num })
                    &&& self.operand2 matches Some(Token::IntegerOperand { value })
                    &&& self.operand3 is None
                },
                Opcode::JMP | Opcode::JMPF | Opcode::JMPB | Opcode::JMPE => {
                    &&& self.operand1 matches Some(Token::Register { reg_num })
                    &&& self.operand2 is None
                    &&& self.operand3 is None
                },
                _ => {
                    &&& self.operand1 matches Some(Token::Register { reg_num })
                    &&& self.operand2 matches Some(Token::Register { reg_num })
                    &&& self.operand3 matches Some(Token::Register { reg_num })
                },
            },
            _ => false,
        }
    }

    /// Encodes the instruction.
    pub fn to_bytes(&self) -> (r: Result<Vec<u8>, EncodingFault>)
        ensures
            match r {
                Ok(bytes) => self.encoding() == Ok::<Seq<u8>, EncodingFault>(bytes@),
                Err(fault) => self.encoding() == Err::<Seq<u8>, EncodingFault>(fault),
            },
    {
        let mut results: Vec<u8> = Vec::new();
        match self.opcode {
            Token::Op { code } => {
                results.push(u8::from(code));
            },
            _ => {
                return Err(EncodingFault::NonOpcodeInOpcodeField);
            },
        }
        assert(results@ =~= seq![self.opcode->Op_code.code()]);
        if let Some(token) = &self.operand1 {
            if !AssemblerInstruction::extract_operhand(token, &mut results) {
                return Err(EncodingFault::OpcodeInOperandField { position: 1 });
            }
        }
        assert(results@ =~= seq![self.opcode->Op_code.code()] + field_encoding(self.operand1));
        if let Some(token) = &self.operand2 {
            if !AssemblerInstruction::extract_operhand(token, &mut results) {
                return Err(EncodingFault::OpcodeInOperandField { position: 2 });
            }
        }
        assert(results@ =~= seq![self.opcode->Op_code.code()] + field_encoding(self.operand1)
            + field_encoding(self.operand2));
        if let Some(token) = &self.operand3 {
            if !AssemblerInstruction::extract_operhand(token, &mut results) {
                return Err(EncodingFault::OpcodeInOperandField { position: 3 });
            }
        }
        assert(results@ =~= seq![self.opcode->Op_code.code()] + field_encoding(self.operand1)
            + field_encoding(self.operand2) + field_encoding(self.operand3));
        Ok(results)
    }

    /// Appends the bytes of the operand `t` to `results`. An opcode is no
    /// operand: nothing is appended, and the answer is `false`.
    fn extract_operhand(t: &Token, results: &mut Vec<u8>) -> (encoded: bool)
        ensures
            encoded == !(t is Op),
            final(results)@ == old(results)@ + operand_encoding(*t),
    {
        match t {
            Token::Register { reg_num } => {
                results.push(*reg_num);
                assert(results@ =~= old(results)@ + operand_encoding(*t));
                true
            },
            Token::IntegerOperand { value } => {
                let converted: u16 = *value;
                let byte1: u16 = converted & 0xff;
                let byte2: u16 = converted >> 8;
                assert(converted & 0xff == converted % 256) by (bit_vector);
                assert(converted >> 8 == converted / 256) by (bit_vector);
                results.push(byte2 as u8);
                results.push(byte1 as u8);
                assert(results@ =~= old(results)@ + operand_encoding(*t));
                true
            },
            Token::Op { code } => {
                assert(results@ =~= old(results)@ + operand_encoding(*t));
                false
            },
        }
    }
}

/// Whether a text starts with the sigil of a register.
pub open spec fn starts_register(input: Seq<char>) -> bool {
    input.len() > 0 && input[0] == REGISTER_SIGIL
}

/// What the first form makes of a mnemonic `o` and the text behind it:
/// the mnemonic alone, and the separators behind it passed over.
pub open spec fn operands_one_spec(rest: Seq<char>, o: Token) -> (
    Seq<char>,
    AssemblerInstruction,
) {
    (without_leading_separators(rest), bare(o))
}

/// What the second form makes of a mnemonic `o` and the text behind it:
/// a register and an integer are read off that text.
pub open spec fn operands_two_spec(rest: Seq<char>, o: Token) -> Result<
    (Seq<char>, AssemblerInstruction),
    ParseFault,
> {
    match register_spec(rest) {
        Ok((rest, r)) => match integer_operand_spec(rest) {
            Ok((rest, i)) => Ok(
                (rest, AssemblerInstruction { operand1: Some(r), operand2: Some(i), ..bare(o) }),
            ),
            Err(fault) => Err(fault),
        },
        Err(fault) => Err(fault),
    }
}

/// What the third form makes of a mnemonic `o` and the text behind it:
/// one, two or three registers are read off that text. Behind the first
/// register, a further one is read wherever the text goes on with the
/// sigil of a register.
pub open spec fn operands_three_spec(rest: Seq<char>, o: Token) -> Result<
    (Seq<char>, AssemblerInstruction),
    ParseFault,
> {
    match register_spec(rest) {
        Ok((rest1, r1)) => {
            let one = AssemblerInstruction { operand1: Some(r1), ..bare(o) };
            if !starts_register(rest1) {
                Ok((rest1, one))
            } else {
                match register_spec(rest1) {
                    Ok((rest2, r2)) => {
                        let two = AssemblerInstruction { operand2: Some(r2), ..one };
                        if !starts_register(rest2) {
                            Ok((rest2, two))
                        } else {
                            match register_spec(rest2) {
                                Ok((rest3, r3)) => Ok(
                                    (rest3, AssemblerInstruction { operand3: Some(r3), ..two }),
                                ),
                                Err(fault) => Err(fault),
                            }
                        }
                    },
                    Err(fault) => Err(fault),
                }
            }
        },
        Err(fault) => Err(fault),
    }
}

/// What parsing the first form off the head of a text gives.
pub open spec fn instruction_one_spec(input: Seq<char>) -> Result<
    (Seq<char>, AssemblerInstruction),
    ParseFault,
> {
    match opcode_spec(input) {
        Some((rest, o)) => Ok(operands_one_spec(rest, o)),
        None => Err(ParseFault::ExpectedMnemonic),
    }
}

/// What parsing the second form off the head of a text gives.
pub open spec fn instruction_two_spec(input: Seq<char>) -> Result<
    (Seq<char>, AssemblerInstruction),
    ParseFault,
> {
    match opcode_spec(input) {
        Some((rest, o)) => operands_two_spec(rest, o),
        None => Err(ParseFault::ExpectedMnemonic),
    }
}

/// What parsing the third form off the head of a text gives.
pub open spec fn instruction_three_spec(input: Seq<char>) -> Result<
    (Seq<char>, AssemblerInstruction),
    ParseFault,
> {
    match opcode_spec(input) {
        Some((rest, o)) => operands_three_spec(rest, o),
        None => Err(ParseFault::ExpectedMnemonic),
    }
}

/// What parsing an instruction off the head of a text gives: the second
/// form where the text has it, else the third, else the first. The forms
/// with operands come first, so that a line with operands is never read
/// as its mnemonic alone.
pub open spec fn instruction_spec(input: Seq<char>) -> Result<
    (Seq<char>, AssemblerInstruction),
    ParseFault,
> {
    if instruction_two_spec(input) is Ok {
        instruction_two_spec(input)
    } else if instruction_three_spec(input) is Ok {
        instruction_three_spec(input)
    } else {
        instruction_one_spec(input)
    }
}

/// Whether `input` starts with the sigil of a register.
fn at_register(input: &str) -> (r: bool)
    ensures
        r == starts_register(input@),
{
    input.unicode_len() > 0 && input.get_char(0) == REGISTER_SIGIL
}

/// Makes an instruction of the first form of the mnemonic `o` and passes
/// over the separators at the head of `rest`, which is the text behind
/// the mnemonic.
pub fn operands_one<'a>(rest: &'a str, o: Token) -> (r: (&'a str, AssemblerInstruction))
    ensures
        operands_one_spec(rest@, o) == (r.0@, r.1),
        r.0@.len() <= rest@.len(),
{
    proof {
        lemma_leading_separators_bound(rest@);
    }
    let rest = match multispace(rest) {
        Some(after) => after,
        None => {
            assert(rest@.skip(0) =~= rest@);
            rest
        },
    };
    (
        rest,
        AssemblerInstruction {
            label: None,
            opcode: o,
            operand1: None,
            operand2: None,
            operand3: None,
        },
    )
}

/// Makes an instruction of the second form of the mnemonic `o` and the
/// register and the integer at the head of `rest`, which is the text
/// behind the mnemonic.
pub fn operands_two<'a>(rest: &'a str, o: Token) -> (r: Result<
    (&'a str, AssemblerInstruction),
    ParseFault,
>)
    ensures
        match r {
            Ok((after, ins)) => {
                &&& operands_two_spec(rest@, o) == Ok::<
                    (Seq<char>, AssemblerInstruction),
                    ParseFault,
                >((after@, ins))
                &&& after@.len() < rest@.len()
            },
            Err(fault) => operands_two_spec(rest@, o) == Err::<
                (Seq<char>, AssemblerInstruction),
                ParseFault,
            >(fault),
        },
{
    let (rest, r) = match register(rest) {
        Ok(parsed) => parsed,
        Err(fault) => {
            return Err(fault);
        },
    };
    let (rest, i) = match integer_operand(rest) {
        Ok(parsed) => parsed,
        Err(fault) => {
            return Err(fault);
        },
    };
    Ok(
        (
            rest,
            AssemblerInstruction {
                label: None,
                opcode: o,
                operand1: Some(r),
                operand2: Some(i),
                operand3: None,
            },
        ),
    )
}

/// Makes an instruction of the third form of the mnemonic `o` and the
/// one, two or three registers at the head of `rest`, which is the text
/// behind the mnemonic.
pub fn operands_three<'a>(rest: &'a str, o: Token) -> (r: Result<
    (&'a str, AssemblerInstruction),
    ParseFault,
>)
    ensures
        match r {
            Ok((after, ins)) => {
                &&& operands_three_spec(rest@, o) == Ok::<
                    (Seq<char>, AssemblerInstruction),
                    ParseFault,
                >((after@, ins))
                &&& after@.len() < rest@.len()
            },
            Err(fault) => operands_three_spec(rest@, o) == Err::<
                (Seq<char>, AssemblerInstruction),
                ParseFault,
            >(fault),
        },
{
    let (rest, r1) = match register(rest) {
        Ok(parsed) => parsed,
        Err(fault) => {
            return Err(fault);
        },
    };
    let mut ins = AssemblerInstruction {
        label: None,
        opcode: o,
        operand1: Some(r1),
        operand2: None,
        operand3: None,
    };
    if !at_register(rest) {
        return Ok((rest, ins));
    }
    let (rest, r2) = match register(rest) {
        Ok(parsed) => parsed,
        Err(fault) => {
            return Err(fault);
        },
    };
    ins.operand2 = Some(r2);
    if !at_register(rest) {
        return Ok((rest, ins));
    }
    let (rest, r3) = match register(rest) {
        Ok(parsed) => parsed,
        Err(fault) => {
            return Err(fault);
        },
    };
    ins.operand3 = Some(r3);
    Ok((rest, ins))
}

/// Parses the first form off the head of `input`: a mnemonic alone.
pub fn instruction_one<'a>(input: &'a str) -> (r: Result<
    (&'a str, AssemblerInstruction),
    ParseFault,
>)
    ensures
        match r {
            Ok((rest, ins)) => {
                &&& instruction_one_spec(input@) == Ok::<
                    (Seq<char>, AssemblerInstruction),
                    ParseFault,
                >((rest@, ins))
                &&& rest@.len() < input@.len()
            },
            Err(fault) => instruction_one_spec(input@) == Err::<
                (Seq<char>, AssemblerInstruction),
                ParseFault,
            >(fault),
        },
{
    match opcode(input) {
        Some((rest, o)) => Ok(operands_one(rest, o)),
        None => Err(ParseFault::ExpectedMnemonic),
    }
}

/// Parses the second form off the head of `input`: a mnemonic, a register
/// and an integer.
pub fn instruction_two<'a>(input: &'a str) -> (r: Result<
    (&'a str, AssemblerInstruction),
    ParseFault,
>)
    ensures
        match r {
            Ok((rest, ins)) => {
                &&& instruction_two_spec(input@) == Ok::<
                    (Seq<char>, AssemblerInstruction),
                    ParseFault,
                >((rest@, ins))
                &&& rest@.len() < input@.len()
            },
            Err(fault) => instruction_two_spec(input@) == Err::<
                (Seq<char>, AssemblerInstruction),
                ParseFault,
            >(fault),
        },
{
    match opcode(input) {
        Some((rest, o)) => operands_two(rest, o),
        None => Err(ParseFault::ExpectedMnemonic),
    }
}

/// Parses the third form off the head of `input`: a mnemonic and one, two
/// or three registers.
pub fn instruction_three<'a>(input: &'a str) -> (r: Result<
    (&'a str, AssemblerInstruction),
    ParseFault,
>)
    ensures
        match r {
            Ok((rest, ins)) => {
                &&& instruction_three_spec(input@) == Ok::<
                    (Seq<char>, AssemblerInstruction),
                    ParseFault,
                >((rest@, ins))
                &&& rest@.len() < input@.len()
            },
            Err(fault) => instruction_three_spec(input@) == Err::<
                (Seq<char>, AssemblerInstruction),
                ParseFault,
            >(fault),
        },
{
    match opcode(input) {
        Some((rest, o)) => operands_three(rest, o),
        None => Err(ParseFault::ExpectedMnemonic),
    }
}

/// Parses an instruction off the head of `input`, in the form with the
/// most operands that `input` has. It fails only where `input` does not
/// start with a letter.
pub fn instruction<'a>(input: &'a str) -> (r: Result<(&'a str, AssemblerInstruction), ParseFault>)
    ensures
        match r {
            Ok((rest, ins)) => {
                &&& instruction_spec(input@) == Ok::<
                    (Seq<char>, AssemblerInstruction),
                    ParseFault,
                >((rest@, ins))
                &&& rest@.len() < input@.len()
            },
            Err(fault) => {
                &&& instruction_spec(input@) == Err::<
                    (Seq<char>, AssemblerInstruction),
                    ParseFault,
                >(fault)
                &&& fault == ParseFault::ExpectedMnemonic
                &&& opcode_spec(input@) is None
            },
        },
{
    if let Ok(parsed) = instruction_two(input) {
        return Ok(parsed);
    }
    if let Ok(parsed) = instruction_three(input) {
        return Ok(parsed);
    }
    instruction_one(input)
}

/// An instruction whose operands are those that its opcode reads has an
/// encoding: it starts with the code of the opcode and has as many bytes
/// as the machine takes for that opcode.
pub proof fn lemma_fitting_instruction_has_machine_width(ins: AssemblerInstruction)
    requires
        ins.fits_opcode(),
    ensures
        ins.encoding() is Ok,
        ins.encoding()->Ok_0.len() == instruction_width(ins.opcode->Op_code),
        ins.encoding()->Ok_0[0] == (ins.opcode->Op_code).code(),
{
}

/// Whether an operand field holds no register, or one that exists.
pub open spec fn names_no_missing_register(field: Option<Token>) -> bool {
    field matches Some(Token::Register { reg_num }) ==> reg_num <= MAX_REGISTER
}

/// Every register operand of a parsed instruction names a register that
/// exists.
pub proof fn lemma_parsed_registers_exist(input: Seq<char>)
    ensures
        instruction_spec(input) matches Ok((_, ins)) ==> {
            &&& names_no_missing_register(ins.operand1)
            &&& names_no_missing_register(ins.operand2)
            &&& names_no_missing_register(ins.operand3)
        },
{
}

/// An encoding never depends on the label.
pub proof fn lemma_label_is_not_encoded(ins: AssemblerInstruction, label: Option<String>)
    ensures
        (AssemblerInstruction { label, ..ins }).encoding() == ins.encoding(),
{
}

/// The three forms give instructions whose opcode field holds an opcode
/// and whose operand fields hold none, so what they give has an encoding.
pub proof fn lemma_parsed_instruction_has_encoding(input: Seq<char>)
    ensures
        instruction_spec(input) matches Ok((_, ins)) ==> ins.encoding() is Ok,
{
}

} // verus!
