use alvm::assembler::instruction_parsers::{
    instruction, instruction_one, instruction_three, instruction_two, AssemblerInstruction,
};
use alvm::assembler::opcode_parsers::opcode;
use alvm::assembler::operand_parsers::integer_operand;
use alvm::assembler::program_parsers::{assemble, program, AssemblyFault, Program};
use alvm::assembler::register_parsers::register;
use alvm::assembler::{prefixed_number, EncodingFault, ParseFault, Token};
use alvm::instruction::Opcode;
use alvm::outcome::Status;
use alvm::text::{parse_decimal, same_text, strip_sigil};
use alvm::vm::VM;

fn form(
    code: Opcode,
    operand1: Option<Token>,
    operand2: Option<Token>,
    operand3: Option<Token>,
) -> AssemblerInstruction {
    AssemblerInstruction { label: None, opcode: Token::Op { code }, operand1, operand2, operand3 }
}

fn reg(reg_num: u8) -> Option<Token> {
    Some(Token::Register { reg_num })
}

fn imm(value: u16) -> Option<Token> {
    Some(Token::IntegerOperand { value })
}

#[test]
fn test_parse_instruction_form_one() {
    let result = instruction_one("hlt\n");
    assert_eq!(
        result,
        Ok((
            "",
            AssemblerInstruction {
                label: None,
                opcode: Token::Op { code: Opcode::HLT },
                operand1: None,
                operand2: None,
                operand3: None
            }
        ))
    );
}

#[test]
fn test_parse_instruction_form_two() {
    let result = instruction_two("load $0 #100\n");
    assert_eq!(
        result,
        Ok((
            "",
            AssemblerInstruction {
                label: None,
                opcode: Token::Op { code: Opcode::LOAD },
                operand1: Some(Token::Register { reg_num: 0 }),
                operand2: Some(Token::IntegerOperand { value: 100 }),
                operand3: None
            }
        ))
    );
}

#[test]
fn opcode_parsers_test_opcode_load() {
    let result = opcode("load");
    assert_eq!(result.is_some(), true);
    let (rest, token) = result.unwrap();
    assert_eq!(token, Token::Op { code: Opcode::LOAD });
    assert_eq!(rest, "");

    let result = opcode("xxxx");
    assert_eq!(result, Some(("", Token::Op { code: Opcode::IGL })));
}

#[test]
fn test_opcode_stops_at_the_first_non_letter() {
    assert_eq!(opcode("load $0 #1"), Some((" $0 #1", Token::Op { code: Opcode::LOAD })));
    assert_eq!(opcode("jmp7"), Some(("7", Token::Op { code: Opcode::JMP })));
}

#[test]
fn test_opcode_needs_a_letter() {
    assert_eq!(opcode(""), None);
    assert_eq!(opcode(" load"), None);
    assert_eq!(opcode("$0"), None);
    assert_eq!(opcode("1load"), None);
}

#[test]
fn test_opcode_takes_letters_of_any_script() {
    assert_eq!(opcode("h\u{e9}llo x"), Some((" x", Token::Op { code: Opcode::IGL })));
}

#[test]
fn test_register() {
    assert_eq!(register("$0"), Ok(("", Token::Register { reg_num: 0 })));
    assert_eq!(register("$31"), Ok(("", Token::Register { reg_num: 31 })));
    assert_eq!(register("  \t$7 \r\n#1"), Ok(("#1", Token::Register { reg_num: 7 })));
    assert_eq!(register("$007x"), Ok(("x", Token::Register { reg_num: 7 })));
}

#[test]
fn test_register_faults() {
    assert_eq!(register("0"), Err(ParseFault::ExpectedSigil { sigil: '$' }));
    assert_eq!(register(""), Err(ParseFault::ExpectedSigil { sigil: '$' }));
    assert_eq!(register("#1"), Err(ParseFault::ExpectedSigil { sigil: '$' }));
    assert_eq!(register("$a"), Err(ParseFault::ExpectedDigits));
    assert_eq!(register("$"), Err(ParseFault::ExpectedDigits));
    assert_eq!(register("$ 1"), Err(ParseFault::ExpectedDigits));
    assert_eq!(register("$32"), Err(ParseFault::NumberOutOfRange { max: 31 }));
    assert_eq!(
        register("$99999999999999999999999999"),
        Err(ParseFault::NumberOutOfRange { max: 31 })
    );
}

#[test]
fn test_integer_operand() {
    assert_eq!(integer_operand("#100"), Ok(("", Token::IntegerOperand { value: 100 })));
    assert_eq!(integer_operand(" #0\n"), Ok(("", Token::IntegerOperand { value: 0 })));
    assert_eq!(integer_operand("#65535 x"), Ok(("x", Token::IntegerOperand { value: 65535 })));
    assert_eq!(integer_operand("#0000000000500"), Ok(("", Token::IntegerOperand { value: 500 })));
}

#[test]
fn test_integer_operand_faults() {
    assert_eq!(integer_operand("100"), Err(ParseFault::ExpectedSigil { sigil: '#' }));
    assert_eq!(integer_operand("$1"), Err(ParseFault::ExpectedSigil { sigil: '#' }));
    assert_eq!(integer_operand("#-1"), Err(ParseFault::ExpectedDigits));
    assert_eq!(integer_operand("#65536"), Err(ParseFault::NumberOutOfRange { max: 65535 }));
    assert_eq!(integer_operand("#4294967296"), Err(ParseFault::NumberOutOfRange { max: 65535 }));
}

#[test]
fn test_digits_of_other_scripts_are_no_digits() {
    assert_eq!(register("$\u{663}"), Err(ParseFault::ExpectedDigits));
    assert_eq!(register("$1\u{663}"), Ok(("\u{663}", Token::Register { reg_num: 1 })));
}

#[test]
fn test_prefixed_number() {
    assert_eq!(prefixed_number("@12 z", '@', 12), Ok(("z", 12)));
    assert_eq!(prefixed_number("@13", '@', 12), Err(ParseFault::NumberOutOfRange { max: 12 }));
    assert_eq!(prefixed_number("@400000000", '@', 400_000_000), Ok(("", 400_000_000)));
    assert_eq!(
        prefixed_number("@400000001", '@', 400_000_000),
        Err(ParseFault::NumberOutOfRange { max: 400_000_000 })
    );
}

#[test]
fn test_parse_decimal() {
    assert_eq!(parse_decimal("0", 9), Some(0));
    assert_eq!(parse_decimal("", 9), None);
    assert_eq!(parse_decimal("1a", 9), None);
    assert_eq!(parse_decimal("4294967296", 4294967295), None);
    assert_eq!(parse_decimal("4294967295", 4294967295), Some(4294967295));
    assert_eq!(parse_decimal("9", 9), Some(9));
    assert_eq!(parse_decimal("10", 9), None);
    assert_eq!(parse_decimal("0123", 200), Some(123));
    assert_eq!(parse_decimal("65535", 65535), Some(65535));
}

#[test]
fn test_strip_sigil() {
    assert_eq!(strip_sigil("$12", '$'), Some("12"));
    assert_eq!(strip_sigil("$", '$'), Some(""));
    assert_eq!(strip_sigil("12", '$'), None);
    assert_eq!(strip_sigil("", '$'), None);
    assert_eq!(strip_sigil("\u{e9}t\u{e9}", '\u{e9}'), Some("t\u{e9}"));
}

#[test]
fn test_same_text() {
    assert!(same_text("", ""));
    assert!(same_text("jmpe", "jmpe"));
    assert!(!same_text("jmpe", "jmp"));
    assert!(!same_text("jmp", "jmpe"));
    assert!(!same_text("jmpf", "jmpb"));
}

#[test]
fn test_instruction_one_takes_the_mnemonic_alone() {
    assert_eq!(
        instruction_one("load $0 #100"),
        Ok(("$0 #100", form(Opcode::LOAD, None, None, None)))
    );
    assert_eq!(instruction_one("hlt"), Ok(("", form(Opcode::HLT, None, None, None))));
    assert_eq!(instruction_one("hlt  \t\r\n  hlt"), Ok(("hlt", form(Opcode::HLT, None, None, None))));
    assert_eq!(instruction_one("$0"), Err(ParseFault::ExpectedMnemonic));
    assert_eq!(instruction_one(""), Err(ParseFault::ExpectedMnemonic));
}

#[test]
fn test_instruction_two_faults() {
    assert_eq!(instruction_two("#1"), Err(ParseFault::ExpectedMnemonic));
    assert_eq!(instruction_two("load"), Err(ParseFault::ExpectedSigil { sigil: '$' }));
    assert_eq!(instruction_two("load $0"), Err(ParseFault::ExpectedSigil { sigil: '#' }));
    assert_eq!(instruction_two("load $0 $1"), Err(ParseFault::ExpectedSigil { sigil: '#' }));
    assert_eq!(instruction_two("load $32 #1"), Err(ParseFault::NumberOutOfRange { max: 31 }));
    assert_eq!(instruction_two("load $1 #70000"), Err(ParseFault::NumberOutOfRange { max: 65535 }));
}

#[test]
fn test_instruction_three() {
    assert_eq!(
        instruction_three("add $0 $1 $2\n"),
        Ok(("", form(Opcode::ADD, reg(0), reg(1), reg(2))))
    );
    assert_eq!(instruction_three("eq $4 $5"), Ok(("", form(Opcode::EQ, reg(4), reg(5), None))));
    assert_eq!(instruction_three("jmp $9 hlt"), Ok(("hlt", form(Opcode::JMP, reg(9), None, None))));
    assert_eq!(
        instruction_three("add $0 $1 $2 $3"),
        Ok(("$3", form(Opcode::ADD, reg(0), reg(1), reg(2))))
    );
}

#[test]
fn test_instruction_three_faults() {
    assert_eq!(instruction_three("1"), Err(ParseFault::ExpectedMnemonic));
    assert_eq!(instruction_three("add"), Err(ParseFault::ExpectedSigil { sigil: '$' }));
    assert_eq!(instruction_three("add $0 $99 $1"), Err(ParseFault::NumberOutOfRange { max: 31 }));
    assert_eq!(instruction_three("add $0 $1 $x"), Err(ParseFault::ExpectedDigits));
}

#[test]
fn test_instruction_prefers_the_form_with_operands() {
    assert_eq!(instruction("load $0 #100\n"), Ok(("", form(Opcode::LOAD, reg(0), imm(100), None))));
    assert_eq!(instruction("sub $3 $2 $1"), Ok(("", form(Opcode::SUB, reg(3), reg(2), reg(1)))));
    assert_eq!(instruction("jmpb $3"), Ok(("", form(Opcode::JMPB, reg(3), None, None))));
    assert_eq!(instruction("hlt\n"), Ok(("", form(Opcode::HLT, None, None, None))));
}

#[test]
fn test_instruction_falls_back_to_the_mnemonic() {
    assert_eq!(instruction("load #1"), Ok(("#1", form(Opcode::LOAD, None, None, None))));
    assert_eq!(instruction("add $0 $99"), Ok(("$0 $99", form(Opcode::ADD, None, None, None))));
}

#[test]
fn test_instruction_fails_only_without_a_mnemonic() {
    assert_eq!(instruction(""), Err(ParseFault::ExpectedMnemonic));
    assert_eq!(instruction("  hlt"), Err(ParseFault::ExpectedMnemonic));
    assert_eq!(instruction("#1"), Err(ParseFault::ExpectedMnemonic));
}

#[test]
fn test_to_bytes_of_each_form() {
    assert_eq!(form(Opcode::HLT, None, None, None).to_bytes(), Ok(vec![5]));
    assert_eq!(form(Opcode::LOAD, reg(0), imm(100), None).to_bytes(), Ok(vec![0, 0, 0, 100]));
    assert_eq!(form(Opcode::LOAD, reg(31), imm(500), None).to_bytes(), Ok(vec![0, 31, 1, 244]));
    assert_eq!(form(Opcode::LOAD, reg(1), imm(65535), None).to_bytes(), Ok(vec![0, 1, 255, 255]));
    assert_eq!(form(Opcode::ADD, reg(0), reg(1), reg(2)).to_bytes(), Ok(vec![1, 0, 1, 2]));
    assert_eq!(form(Opcode::JMPE, reg(7), None, None).to_bytes(), Ok(vec![15, 7]));
    assert_eq!(form(Opcode::IGL, None, None, None).to_bytes(), Ok(vec![200]));
}

#[test]
fn test_to_bytes_skips_empty_fields() {
    assert_eq!(form(Opcode::JMP, None, None, reg(3)).to_bytes(), Ok(vec![6, 3]));
    assert_eq!(form(Opcode::LOAD, None, imm(258), reg(3)).to_bytes(), Ok(vec![0, 1, 2, 3]));
}

#[test]
fn test_to_bytes_does_not_check_registers() {
    assert_eq!(form(Opcode::JMP, reg(200), None, None).to_bytes(), Ok(vec![6, 200]));
}

#[test]
fn test_to_bytes_ignores_the_label() {
    let mut labelled = form(Opcode::LOAD, reg(2), imm(3), None);
    labelled.label = Some(String::from("start"));
    assert_eq!(labelled.to_bytes(), Ok(vec![0, 2, 0, 3]));
}

#[test]
fn test_to_bytes_faults() {
    let no_opcode = AssemblerInstruction {
        label: None,
        opcode: Token::Register { reg_num: 1 },
        operand1: None,
        operand2: None,
        operand3: None,
    };
    assert_eq!(no_opcode.to_bytes(), Err(EncodingFault::NonOpcodeInOpcodeField));
    let no_opcode = AssemblerInstruction {
        label: None,
        opcode: Token::IntegerOperand { value: 1 },
        operand1: Some(Token::Op { code: Opcode::HLT }),
        operand2: None,
        operand3: None,
    };
    assert_eq!(no_opcode.to_bytes(), Err(EncodingFault::NonOpcodeInOpcodeField));

    let op = Some(Token::Op { code: Opcode::HLT });
    assert_eq!(
        form(Opcode::ADD, op, reg(1), reg(2)).to_bytes(),
        Err(EncodingFault::OpcodeInOperandField { position: 1 })
    );
    assert_eq!(
        form(Opcode::ADD, reg(1), op, op).to_bytes(),
        Err(EncodingFault::OpcodeInOperandField { position: 2 })
    );
    assert_eq!(
        form(Opcode::ADD, None, None, op).to_bytes(),
        Err(EncodingFault::OpcodeInOperandField { position: 3 })
    );
}

#[test]
fn test_program() {
    let (rest, parsed) = program("load $0 #100\nload $1 #200\nadd $0 $1 $2\nhlt").unwrap();
    assert_eq!(rest, "");
    assert_eq!(
        parsed,
        Program {
            instructions: vec![
                form(Opcode::LOAD, reg(0), imm(100), None),
                form(Opcode::LOAD, reg(1), imm(200), None),
                form(Opcode::ADD, reg(0), reg(1), reg(2)),
                form(Opcode::HLT, None, None, None),
            ]
        }
    );
    assert_eq!(parsed.to_bytes(), Ok(vec![0, 0, 0, 100, 0, 1, 0, 200, 1, 0, 1, 2, 5]));
}

#[test]
fn test_program_hands_back_what_it_could_not_read() {
    let (rest, parsed) = program("hlt\n#oops").unwrap();
    assert_eq!(rest, "#oops");
    assert_eq!(parsed.instructions.len(), 1);
}

#[test]
fn test_program_needs_one_instruction() {
    assert_eq!(program(""), Err(ParseFault::ExpectedMnemonic));
    assert_eq!(program("  hlt"), Err(ParseFault::ExpectedMnemonic));
    assert_eq!(program("#1"), Err(ParseFault::ExpectedMnemonic));
}

#[test]
fn test_program_to_bytes_reports_the_first_fault() {
    let op = Some(Token::Op { code: Opcode::HLT });
    let bad = Program {
        instructions: vec![
            form(Opcode::HLT, None, None, None),
            form(Opcode::ADD, None, op, None),
            form(Opcode::ADD, op, None, None),
        ],
    };
    assert_eq!(bad.to_bytes(), Err(EncodingFault::OpcodeInOperandField { position: 2 }));
    assert_eq!(Program { instructions: vec![] }.to_bytes(), Ok(vec![]));
}

#[test]
fn test_assemble() {
    assert_eq!(assemble("load $0 #100"), Ok(vec![0, 0, 0, 100]));
    assert_eq!(assemble("hlt"), Ok(vec![5]));
    assert_eq!(assemble("div $0 $1 $2\njmpf $3\n"), Ok(vec![4, 0, 1, 2, 7, 3]));
    assert_eq!(assemble("bogus"), Ok(vec![200]));
}

#[test]
fn test_assemble_faults() {
    assert_eq!(assemble(""), Err(AssemblyFault::Parse(ParseFault::ExpectedMnemonic)));
    assert_eq!(assemble("$0"), Err(AssemblyFault::Parse(ParseFault::ExpectedMnemonic)));
    assert_eq!(assemble("load $0 #1 ?"), Err(AssemblyFault::Parse(ParseFault::UnparsedInput)));
    assert_eq!(assemble("load $0 #70000"), Err(AssemblyFault::Parse(ParseFault::UnparsedInput)));
}

#[test]
fn test_assembled_load_executes() {
    let bytes = assemble("load $0 #100").unwrap();
    let mut vm = VM::new();
    vm.add_bytes(&bytes);
    assert_eq!(vm.run_once(), Ok(Status::Running));
    assert_eq!(vm.registers[0], 100);
    assert_eq!(vm.pc, bytes.len());
    assert_eq!(vm.pc, 4);
}

#[test]
fn test_machine_takes_each_instruction_whole() {
    let lines = ["load $1 #7", "add $1 $1 $2", "sub $2 $1 $3", "mul $3 $3 $4", "div $4 $1 $5",
        "eq $1 $1 $0", "neq $1 $1 $0", "gte $1 $1 $0", "lte $1 $1 $0", "lt $1 $1 $0",
        "gt $1 $1 $0", "hlt"];
    let mut vm = VM::new();
    for line in lines {
        let bytes = assemble(line).unwrap();
        let before = vm.pc;
        vm.add_bytes(&bytes);
        assert!(vm.run_once().is_ok());
        assert_eq!(vm.pc, before + bytes.len());
    }
    assert_eq!(vm.registers[5], 7);
    assert_eq!(vm.remainder, 0);
}
