//! Tests of the logic-gate demonstration and the superseded accumulator
//! prototype.

use riscv_sim::gates::gate::GateCollection;
use riscv_sim::gates::gate::GateKind;
use riscv_sim::gates::gate::LogicGate;
use riscv_sim::gates::gate::and_gate;
use riscv_sim::gates::gate::nand_gate;
use riscv_sim::gates::gate::nor_gate;
use riscv_sim::gates::gate::or_gate;
use riscv_sim::gates::gate::xor_gate;
use riscv_sim::gates::truth_table::TruthTable;
use riscv_sim::proto::alu::Alu as ProtoAlu;
use riscv_sim::proto::alu::AluState;
use riscv_sim::proto::cpu::Cpu as ProtoCpu;
use riscv_sim::proto::types::Instruction as ProtoInstruction;

#[test]
fn test_gate_functions() {
    assert!(and_gate(true, true) && !and_gate(true, false));
    assert!(or_gate(true, false) && !or_gate(false, false));
    assert!(xor_gate(true, false) && !xor_gate(true, true));
    assert!(nand_gate(true, false) && !nand_gate(true, true));
    assert!(nor_gate(false, false) && !nor_gate(true, false));
}

#[test]
fn test_gate_collection_lookup() {
    let gates = GateCollection::new();
    let and = gates.get_gate("AND").unwrap();
    assert!(and.evaluate(true, true));
    assert!(!and.evaluate(true, false));
    let xor = gates.get_gate("XOR").unwrap();
    assert!(xor.evaluate(true, false));
    assert!(gates.get_gate("NOT").is_none());
}

#[test]
fn test_truth_table_two_inputs() {
    let gates = GateCollection::new();
    let and = gates.get_gate("AND").unwrap();
    let xor = gates.get_gate("XOR").unwrap();
    let selected = vec![and, xor];
    let table = TruthTable::new(&selected, 2);

    // Rows: 00, 01, 10, 11 with the most significant input first.
    assert_eq!(table.inputs.len(), 4);
    assert_eq!(table.inputs[0], vec![false, false]);
    assert_eq!(table.inputs[1], vec![false, true]);
    assert_eq!(table.inputs[2], vec![true, false]);
    assert_eq!(table.inputs[3], vec![true, true]);

    // AND column then XOR column.
    assert_eq!(table.outputs[0], vec![false, false]);
    assert_eq!(table.outputs[1], vec![false, true]);
    assert_eq!(table.outputs[2], vec![false, true]);
    assert_eq!(table.outputs[3], vec![true, false]);

    assert_eq!(table.gate_names, vec!["AND", "XOR"]);
}

#[test]
fn test_truth_table_matrix() {
    let gate = LogicGate::new("OR", GateKind::Or, '|');
    let selected = vec![&gate];
    let table = TruthTable::new(&selected, 2);
    let (matrix, names) = table.to_matrix();

    assert_eq!(names, vec!["OR"]);
    assert_eq!(matrix.len(), 4);
    assert_eq!(matrix[0], vec![false, false, false]);
    assert_eq!(matrix[1], vec![false, true, true]);
    assert_eq!(matrix[2], vec![true, false, true]);
    assert_eq!(matrix[3], vec![true, true, true]);
}

#[test]
fn test_truth_table_chained_inputs() {
    let gate = LogicGate::new("AND", GateKind::And, '&');
    let selected = vec![&gate];
    let table = TruthTable::new(&selected, 3);
    assert_eq!(table.inputs.len(), 8);
    // Only the all-ones row chains to true through AND.
    for i in 0..7 {
        assert_eq!(table.outputs[i], vec![false]);
    }
    assert_eq!(table.outputs[7], vec![true]);
}

#[test]
fn test_proto_alu_state_machine() {
    let mut alu = ProtoAlu::new();
    assert_eq!(alu.get_state(), AluState::Idle);

    // ADD: accumulator 10 plus address field 20.
    alu.accumulator = 10;
    let add = ProtoInstruction { opcode: 0x01, address: 20, flags: 0 };
    for _ in 0..4 {
        alu.clock(add);
    }
    assert_eq!(alu.get_result(), 30);
    assert_eq!(alu.get_state(), AluState::Idle);
    // WriteBack committed the result into the accumulator.
    assert_eq!(alu.accumulator, 30);

    // NOT passes through the accumulator complemented.
    alu.reset();
    alu.accumulator = 0xFF;
    let not = ProtoInstruction { opcode: 0x06, address: 0, flags: 0 };
    for _ in 0..4 {
        alu.clock(not);
    }
    assert_eq!(alu.get_result(), 0xFFFF_FF00);

    // Shifts mask the amount to five bits.
    alu.reset();
    alu.accumulator = 1;
    let shl = ProtoInstruction { opcode: 0x07, address: 4, flags: 0 };
    for _ in 0..4 {
        alu.clock(shl);
    }
    assert_eq!(alu.get_result(), 16);
}

#[test]
fn test_proto_alu_registers() {
    let mut alu = ProtoAlu::new();
    alu.write_register(3, 99);
    assert_eq!(alu.read_register(3), 99);
    // Out-of-range indices read zero and drop writes.
    assert_eq!(alu.read_register(200), 0);
    alu.write_register(200, 7);
    assert_eq!(alu.read_register(200), 0);
    alu.reset();
    assert_eq!(alu.read_register(3), 0);
}

#[test]
fn test_proto_cpu_runs() {
    let mut cpu = ProtoCpu::new();
    // A no-op word at every address: the PC walks one word per cycle.
    cpu.load_program(&[(0, 0), (1, 0), (2, 0)]);
    cpu.reset();
    cpu.run_cycles(3);
    assert_eq!(cpu.get_cycle_count(), 3);
    assert_eq!(cpu.control.get_pc(), 3);
}

#[test]
fn test_proto_cpu_jump() {
    let mut cpu = ProtoCpu::new();
    // Word 0 is a JUMP (opcode 0x21) to word index 5.
    let jump: u32 = 0x21 | (5 << 8);
    cpu.load_program(&[(0, jump)]);
    cpu.reset();
    cpu.run_cycles(1);
    assert_eq!(cpu.control.get_pc(), 5);
}
