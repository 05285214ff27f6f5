use alvm::instruction::{Instruction, Opcode};

#[test]
fn test_create_hlt() {
    let opcode = Opcode::HLT;
    assert_eq!(opcode, Opcode::HLT);
}

#[test]
fn test_create_instruction() {
    let instruction = Instruction::new(Opcode::HLT);
    assert_eq!(instruction.opcode, Opcode::HLT);
}

fn all_opcodes() -> Vec<(Opcode, u8, &'static str)> {
    vec![
        (Opcode::LOAD, 0, "load"),
        (Opcode::ADD, 1, "add"),
        (Opcode::SUB, 2, "sub"),
        (Opcode::MUL, 3, "mul"),
        (Opcode::DIV, 4, "div"),
        (Opcode::HLT, 5, "hlt"),
        (Opcode::JMP, 6, "jmp"),
        (Opcode::JMPF, 7, "jmpf"),
        (Opcode::JMPB, 8, "jmpb"),
        (Opcode::EQ, 9, "eq"),
        (Opcode::NEQ, 10, "neq"),
        (Opcode::GTE, 11, "gte"),
        (Opcode::LTE, 12, "lte"),
        (Opcode::LT, 13, "lt"),
        (Opcode::GT, 14, "gt"),
        (Opcode::JMPE, 15, "jmpe"),
    ]
}

#[test]
fn test_codes_of_real_opcodes() {
    for (opcode, code, _) in all_opcodes() {
        assert_eq!(u8::from(opcode), code);
        assert_eq!(Opcode::from(code), opcode);
    }
}

#[test]
fn test_illegal_code_is_the_sentinel() {
    assert_eq!(u8::from(Opcode::IGL), 200);
    assert_eq!(Opcode::from(200u8), Opcode::IGL);
}

#[test]
fn test_every_other_byte_decodes_to_illegal() {
    for byte in 16..=255u8 {
        assert_eq!(Opcode::from(byte), Opcode::IGL);
    }
}

#[test]
fn test_decode_inverts_encode() {
    for (opcode, _, _) in all_opcodes() {
        assert_eq!(Opcode::from(u8::from(opcode)), opcode);
    }
    assert_eq!(Opcode::from(u8::from(Opcode::IGL)), Opcode::IGL);
}

#[test]
fn test_encode_is_injective() {
    let mut codes: Vec<u8> = all_opcodes().iter().map(|entry| entry.1).collect();
    codes.push(u8::from(Opcode::IGL));
    for i in 0..codes.len() {
        for j in 0..codes.len() {
            if i != j {
                assert_ne!(codes[i], codes[j]);
            }
        }
    }
}

#[test]
fn test_mnemonics() {
    for (opcode, _, mnemonic) in all_opcodes() {
        assert_eq!(Opcode::from_mnemonic(mnemonic), opcode);
    }
}

#[test]
fn test_unknown_mnemonics_are_illegal() {
    assert_eq!(Opcode::from_mnemonic("xxxx"), Opcode::IGL);
    assert_eq!(Opcode::from_mnemonic(""), Opcode::IGL);
    assert_eq!(Opcode::from_mnemonic("igl"), Opcode::IGL);
    assert_eq!(Opcode::from_mnemonic("loa"), Opcode::IGL);
    assert_eq!(Opcode::from_mnemonic("loadd"), Opcode::IGL);
}

#[test]
fn test_mnemonics_are_case_sensitive() {
    assert_eq!(Opcode::from_mnemonic("LOAD"), Opcode::IGL);
    assert_eq!(Opcode::from_mnemonic("Hlt"), Opcode::IGL);
}
