use regvm::instruction::{Instruction, Opcode, OP_HLT, OP_LOAD};

#[test]
fn test_create_instruction() {
    let instruction = Instruction::new(Opcode::HLT);

    assert_eq!(instruction.opcode(), Opcode::HLT);
}

#[test]
fn decode_assigned_codes() {
    assert_eq!(Opcode::from(OP_LOAD), Opcode::LOAD);
    assert_eq!(Opcode::from(OP_HLT), Opcode::HLT);
    assert_eq!(Opcode::from(9), Opcode::LOAD);
    assert_eq!(Opcode::from(1), Opcode::HLT);
}

#[test]
fn decode_unassigned_codes_are_illegal() {
    assert_eq!(Opcode::from(0), Opcode::IGL);
    assert_eq!(Opcode::from(2), Opcode::IGL);
    assert_eq!(Opcode::from(200), Opcode::IGL);
    assert_eq!(Opcode::from(255), Opcode::IGL);
}

#[test]
fn decode_is_total() {
    for byte in 0..=255u8 {
        let opcode = Opcode::from(byte);
        assert!(
            opcode == Opcode::LOAD || opcode == Opcode::HLT || opcode == Opcode::IGL
        );
        if byte != OP_LOAD && byte != OP_HLT {
            assert_eq!(opcode, Opcode::IGL);
        }
    }
}
