use regvm::instruction::{OP_HLT, OP_LOAD};
use regvm::vm::{Status, VM, REGISTER_COUNT};

#[test]
fn test_create_vm() {
    let test_vm = VM::new();
    assert_eq!(test_vm.register(0), 0)
}

#[test]
fn test_opcode_hlt() {
    let mut test_vm = VM::new();
    let test_bytes = vec![OP_HLT];
    test_vm.load(test_bytes);
    test_vm.run();
    assert_eq!(test_vm.pc(), 1);
}

#[test]
fn test_opcode_igl() {
    let mut test_vm = VM::new();
    let test_bytes = vec![200, 0, 0, 0];
    test_vm.load(test_bytes);
    test_vm.run();
    assert_eq!(test_vm.pc(), 1);
}

#[test]
fn test_opcode_load() {
    let mut vm = VM::new();
    let register_index = 1;

    let instruction = vec![OP_LOAD, register_index, 1, 244];
    vm.load(instruction);

    vm.run();

    assert_eq!(vm.register(register_index as usize), 500);
}

#[test]
fn fresh_vm_is_zeroed() {
    let vm = VM::new();
    for i in 0..REGISTER_COUNT {
        assert_eq!(vm.register(i), 0);
    }
    assert_eq!(vm.pc(), 0);
    assert_eq!(vm.program_len(), 0);
    assert_eq!(vm.status(), Status::Running);
}

#[test]
fn hlt_halts_and_leaves_registers_zero() {
    let mut vm = VM::new();
    vm.load(vec![OP_HLT]);
    vm.run();
    assert_eq!(vm.pc(), 1);
    assert_eq!(vm.status(), Status::Halted);
    for i in 0..REGISTER_COUNT {
        assert_eq!(vm.register(i), 0);
    }
}

#[test]
fn igl_consumes_only_the_opcode_byte() {
    let mut vm = VM::new();
    vm.load(vec![200, 0, 0, 0]);
    vm.run();
    assert_eq!(vm.pc(), 1);
    assert_eq!(vm.status(), Status::IllegalOpcode);
    for i in 0..REGISTER_COUNT {
        assert_eq!(vm.register(i), 0);
    }
}

#[test]
fn load_stores_big_endian_immediate() {
    let mut vm = VM::new();
    vm.load(vec![OP_LOAD, 1, 1, 244]);
    vm.run();
    assert_eq!(vm.register(1), 500);
    assert_eq!(vm.pc(), 4);
    assert_eq!(vm.status(), Status::Halted);
}

#[test]
fn load_immediate_bytes_are_high_then_low() {
    let mut vm = VM::new();
    vm.load(vec![OP_LOAD, 0, 2, 0, OP_LOAD, 3, 0, 7, OP_LOAD, 4, 255, 255, OP_HLT]);
    vm.run();
    assert_eq!(vm.register(0), 512);
    assert_eq!(vm.register(3), 7);
    assert_eq!(vm.register(4), 65535);
    assert_eq!(vm.pc(), 13);
    assert_eq!(vm.status(), Status::Halted);
}

#[test]
fn run_is_deterministic() {
    let program = vec![OP_LOAD, 0, 0, 42, OP_LOAD, 2, 1, 0, 200];

    let mut first = VM::new();
    first.load(program.clone());
    first.run();

    let mut second = VM::new();
    second.load(program);
    second.run();

    assert_eq!(first.pc(), second.pc());
    assert_eq!(first.status(), second.status());
    for i in 0..REGISTER_COUNT {
        assert_eq!(first.register(i), second.register(i));
    }
}

#[test]
fn run_once_advances_one_instruction_width() {
    let mut vm = VM::new();
    vm.load(vec![OP_LOAD, 0, 0, 42, OP_LOAD, 2, 1, 0, OP_HLT]);

    vm.run_once();
    assert_eq!(vm.pc(), 4);
    assert_eq!(vm.register(0), 42);
    assert_eq!(vm.status(), Status::Running);

    vm.run_once();
    assert_eq!(vm.pc(), 8);
    assert_eq!(vm.register(2), 256);
    assert_eq!(vm.status(), Status::Running);

    vm.run_once();
    assert_eq!(vm.pc(), 9);
    assert_eq!(vm.status(), Status::Halted);
}

#[test]
fn run_once_past_the_end_is_a_noop() {
    let mut vm = VM::new();
    vm.load(vec![OP_LOAD, 5, 0, 1]);

    vm.run_once();
    assert_eq!(vm.pc(), 4);
    assert_eq!(vm.register(5), 1);

    vm.run_once();
    vm.run_once();
    assert_eq!(vm.pc(), 4);
    assert_eq!(vm.register(5), 1);
    assert_eq!(vm.status(), Status::Halted);
}

#[test]
fn empty_program_halts_at_zero() {
    let mut vm = VM::new();
    vm.run();
    assert_eq!(vm.pc(), 0);
    assert_eq!(vm.status(), Status::Halted);
}

#[test]
fn truncated_load_faults() {
    let mut vm = VM::new();
    vm.load(vec![OP_LOAD, 1]);
    vm.run();
    assert_eq!(vm.status(), Status::TruncatedInstruction);
    assert_eq!(vm.pc(), 1);
    for i in 0..REGISTER_COUNT {
        assert_eq!(vm.register(i), 0);
    }
}

#[test]
fn out_of_range_register_faults() {
    let mut vm = VM::new();
    vm.load(vec![OP_LOAD, 40, 0, 0]);
    vm.run();
    assert_eq!(vm.status(), Status::InvalidRegister);
    assert_eq!(vm.pc(), 2);
    for i in 0..REGISTER_COUNT {
        assert_eq!(vm.register(i), 0);
    }
}

#[test]
fn load_keeps_registers_and_pc() {
    let mut vm = VM::new();
    vm.load(vec![OP_LOAD, 1, 1, 244]);
    vm.run();
    assert_eq!(vm.pc(), 4);

    vm.load(vec![OP_HLT]);
    assert_eq!(vm.pc(), 4);
    assert_eq!(vm.register(1), 500);
    assert_eq!(vm.program_len(), 1);
}
