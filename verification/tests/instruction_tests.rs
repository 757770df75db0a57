use regvm::instruction::{Instruction, Opcode};

#[test]
fn test_create_hlt() {
    let opcode = Opcode::HLT;
    assert_eq!(opcode, Opcode::HLT);
}

#[test]
fn test_create_instruction() {
    let instruction = Instruction::new(Opcode::HLT);
    assert_eq!(instruction.opcode, Opcode::HLT);
}

#[test]
fn decode_defined_opcodes() {
    assert_eq!(Opcode::from(0x00), Opcode::HLT);
    assert_eq!(Opcode::from(0x01), Opcode::LOAD);
    assert_eq!(Opcode::from(0x02), Opcode::MOV);
    assert_eq!(Opcode::from(0x03), Opcode::STOR);
    assert_eq!(Opcode::from(0x04), Opcode::LDIM);
}

#[test]
fn decode_every_other_byte_is_illegal() {
    for byte in 5u8..=255 {
        assert_eq!(Opcode::from(byte), Opcode::IGL);
    }
}

#[test]
fn decode_inverts_the_encoding() {
    let all = [
        Opcode::HLT,
        Opcode::LOAD,
        Opcode::MOV,
        Opcode::STOR,
        Opcode::LDIM,
        Opcode::IGL,
    ];
    for opcode in all {
        assert_eq!(Opcode::from(opcode as u8), opcode);
    }
}

#[test]
fn instruction_keeps_its_opcode() {
    assert_eq!(Instruction::new(Opcode::LDIM), Instruction::new(Opcode::LDIM));
    assert_ne!(Instruction::new(Opcode::LDIM), Instruction::new(Opcode::LOAD));
    assert_eq!(Instruction::new(Opcode::IGL).opcode, Opcode::IGL);
}
