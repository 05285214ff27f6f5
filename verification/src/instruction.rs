//! The opcode table: the closed set of operations the machine knows, the
//! byte that stands for each of them in a program, and their mnemonics.

use crate::text::same_text;
use vstd::prelude::*;

verus! {

/// The byte that stands for [`Opcode::IGL`] in a program. It lies outside
/// the range of the real opcodes, so no real opcode can be mistaken for it.
pub const ILLEGAL_CODE: u8 = 200;

/// The number of real opcodes; their codes are `0..OPCODE_COUNT`.
pub const OPCODE_COUNT: u8 = 16;

/// An operation of the machine. `IGL` stands for every byte that names no
/// operation.
#[derive(Copy, Clone, Debug, PartialEq, Eq, Structural)]
pub enum Opcode {
    LOAD,
    ADD,
    SUB,
    MUL,
    DIV,
    HLT,
    JMP,
    JMPF,
    JMPB,
    EQ,
    NEQ,
    GTE,
    LTE,
    LT,
    GT,
    JMPE,
    IGL,
}

impl Opcode {
    /// The byte that stands for this opcode in a program.
    pub open spec fn code(self) -> u8 {
        match self {
            Opcode::LOAD => 0,
            Opcode::ADD => 1,
            Opcode::SUB => 2,
            Opcode::MUL => 3,
            Opcode::DIV => 4,
            Opcode::HLT => 5,
            Opcode::JMP => 6,
            Opcode::JMPF => 7,
            Opcode::JMPB => 8,
            Opcode::EQ => 9,
            Opcode::NEQ => 10,
            Opcode::GTE => 11,
            Opcode::LTE => 12,
            Opcode::LT => 13,
            Opcode::GT => 14,
            Opcode::JMPE => 15,
            Opcode::IGL => ILLEGAL_CODE,
        }
    }

    /// The opcode that a byte of a program stands for. Every byte that is
    /// not the code of a real opcode stands for `IGL`.
    pub open spec fn of_code(v: u8) -> Opcode {
        if v == 0 {
            Opcode::LOAD
        } else if v == 1 {
            Opcode::ADD
        } else if v == 2 {
            Opcode::SUB
        } else if v == 3 {
            Opcode::MUL
        } else if v == 4 {
            Opcode::DIV
        } else if v == 5 {
            Opcode::HLT
        } else if v == 6 {
            Opcode::JMP
        } else if v == 7 {
            Opcode::JMPF
        } else if v == 8 {
            Opcode::JMPB
        } else if v == 9 {
            Opcode::EQ
        } else if v == 10 {
            Opcode::NEQ
        } else if v == 11 {
            Opcode::GTE
        } else if v == 12 {
            Opcode::LTE
        } else if v == 13 {
            Opcode::LT
        } else if v == 14 {
            Opcode::GT
        } else if v == 15 {
            Opcode::JMPE
        } else {
            Opcode::IGL
        }
    }

    /// The opcode that a mnemonic names. Mnemonics are lower case; every
    /// word that is not the mnemonic of a real opcode names `IGL`.
    pub open spec fn of_mnemonic(name: Seq<char>) -> Opcode {
        if name == "load"@ {
            Opcode::LOAD
        } else if name == "add"@ {
            Opcode::ADD
        } else if name == "sub"@ {
            Opcode::SUB
        } else if name == "mul"@ {
            Opcode::MUL
        } else if name == "div"@ {
            Opcode::DIV
        } else if name == "hlt"@ {
            Opcode::HLT
        } else if name == "jmp"@ {
            Opcode::JMP
        } else if name == "jmpf"@ {
            Opcode::JMPF
        } else if name == "jmpb"@ {
            Opcode::JMPB
        } else if name == "eq"@ {
            Opcode::EQ
        } else if name == "neq"@ {
            Opcode::NEQ
        } else if name == "gte"@ {
            Opcode::GTE
        } else if name == "lte"@ {
            Opcode::LTE
        } else if name == "lt"@ {
            Opcode::LT
        } else if name == "gt"@ {
            Opcode::GT
        } else if name == "jmpe"@ {
            Opcode::JMPE
        } else {
            Opcode::IGL
        }
    }

    /// Looks a mnemonic up. An unknown word is no error here: it gives
    /// `IGL`, which the machine refuses to execute.
    pub fn from_mnemonic(name: &str) -> (op: Opcode)
        ensures
            op == Opcode::of_mnemonic(name@),
    {
        if same_text(name, "load") {
            Opcode::LOAD
        } else if same_text(name, "add") {
            Opcode::ADD
        } else if same_text(name, "sub") {
            Opcode::SUB
        } else if same_text(name, "mul") {
            Opcode::MUL
        } else if same_text(name, "div") {
            Opcode::DIV
        } else if same_text(name, "hlt") {
            Opcode::HLT
        } else if same_text(name, "jmp") {
            Opcode::JMP
        } else if same_text(name, "jmpf") {
            Opcode::JMPF
        } else if same_text(name, "jmpb") {
            Opcode::JMPB
        } else if same_text(name, "eq") {
            Opcode::EQ
        } else if same_text(name, "neq") {
            Opcode::NEQ
        } else if same_text(name, "gte") {
            Opcode::GTE
        } else if same_text(name, "lte") {
            Opcode::LTE
        } else if same_text(name, "lt") {
            Opcode::LT
        } else if same_text(name, "gt") {
            Opcode::GT
        } else if same_text(name, "jmpe") {
            Opcode::JMPE
        } else {
            Opcode::IGL
        }
    }

    /// Whether this opcode is one of the four that assign the program
    /// counter from a register.
    pub open spec fn is_jump(self) -> bool {
        self == Opcode::JMP || self == Opcode::JMPF || self == Opcode::JMPB || self == Opcode::JMPE
    }
}

impl From<u8> for Opcode {
    /// Decodes one byte of a program.
    fn from(v: u8) -> (op: Opcode) {
        match v {
            0 => Opcode::LOAD,
            1 => Opcode::ADD,
            2 => Opcode::SUB,
            3 => Opcode::MUL,
            4 => Opcode::DIV,
            5 => Opcode::HLT,
            6 => Opcode::JMP,
            7 => Opcode::JMPF,
            8 => Opcode::JMPB,
            9 => Opcode::EQ,
            10 => Opcode::NEQ,
            11 => Opcode::GTE,
            12 => Opcode::LTE,
            13 => Opcode::LT,
            14 => Opcode::GT,
            15 => Opcode::JMPE,
            _ => Opcode::IGL,
        }
    }
}

impl vstd::std_specs::convert::FromSpecImpl<u8> for Opcode {
    open spec fn obeys_from_spec() -> bool {
        true
    }

    open spec fn from_spec(v: u8) -> Opcode {
        Opcode::of_code(v)
    }
}

impl From<Opcode> for u8 {
    /// Encodes an opcode as the byte that stands for it.
    fn from(op: Opcode) -> (v: u8) {
        match op {
            Opcode::LOAD => 0,
            Opcode::ADD => 1,
            Opcode::SUB => 2,
            Opcode::MUL => 3,
            Opcode::DIV => 4,
            Opcode::HLT => 5,
            Opcode::JMP => 6,
            Opcode::JMPF => 7,
            Opcode::JMPB => 8,
            Opcode::EQ => 9,
            Opcode::NEQ => 10,
            Opcode::GTE => 11,
            Opcode::LTE => 12,
            Opcode::LT => 13,
            Opcode::GT => 14,
            Opcode::JMPE => 15,
            Opcode::IGL => 200,
        }
    }
}

impl vstd::std_specs::convert::FromSpecImpl<Opcode> for u8 {
    open spec fn obeys_from_spec() -> bool {
        true
    }

    open spec fn from_spec(op: Opcode) -> u8 {
        op.code()
    }
}

/// Decoding the code of an opcode gives that opcode back, `IGL` included.
pub proof fn lemma_decode_inverts_encode(op: Opcode)
    ensures
        Opcode::of_code(op.code()) == op,
{
}

/// Encoding the opcode of a byte gives the byte back exactly when the byte
/// is the code of a real opcode; every other byte encodes as the sentinel.
pub proof fn lemma_encode_inverts_decode(v: u8)
    ensures
        v < OPCODE_COUNT ==> Opcode::of_code(v).code() == v,
        v < OPCODE_COUNT <==> Opcode::of_code(v) != Opcode::IGL,
        v >= OPCODE_COUNT ==> Opcode::of_code(v).code() == ILLEGAL_CODE,
{
}

/// Two opcodes with the same code are the same opcode.
pub proof fn lemma_encode_injective(a: Opcode, b: Opcode)
    requires
        a.code() == b.code(),
    ensures
        a == b,
{
}

/// The code of a real opcode lies below `OPCODE_COUNT`; the code of `IGL`
/// is the sentinel and lies outside that range.
pub proof fn lemma_illegal_code_is_reserved(op: Opcode)
    ensures
        op != Opcode::IGL <==> op.code() < OPCODE_COUNT,
        op == Opcode::IGL <==> op.code() == ILLEGAL_CODE,
{
}

/// An instruction in its decoded form.
#[derive(Debug, PartialEq)]
pub struct Instruction {
    pub opcode: Opcode,
}

impl Instruction {
    /// An instruction that performs `opcode`.
    pub fn new(opcode: Opcode) -> (instruction: Instruction)
        ensures
            instruction.opcode == opcode,
    {
        Instruction { opcode: opcode }
    }
}

} // verus!
