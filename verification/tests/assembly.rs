//! Tests of the assembler front end: label collection, the stub encoder,
//! and its error taxonomy.

use riscv_sim::AsmError;
use riscv_sim::Assembler;
use riscv_sim::InstructionEncoder;
use riscv_sim::LabelTable;
use riscv_sim::encode_instruction;
use riscv_sim::parse_assembly;

#[test]
fn test_simple_assembly() {
    let mut engine = Assembler::new();
    let result = engine.assemble("addi x1, x0, 42");
    assert!(result.is_ok());
}

#[test]
fn test_assemble_program_addresses() {
    let mut engine = Assembler::new();
    let source = "addi x1, x0, 1\naddi x2, x0, 2\n\n# a comment\naddi x3, x0, 3";
    let program = engine.assemble(source).unwrap();
    let addi = InstructionEncoder::i_type(0b0010011, 1, 0b000, 0, 42);
    assert_eq!(program, vec![(0, addi), (4, addi), (8, addi)]);
}

#[test]
fn test_assemble_uppercase_mnemonic() {
    // The mnemonic is folded to lower case before the lookup, so an
    // uppercase spelling assembles too.
    let mut engine = Assembler::new();
    assert!(engine.assemble("ADDI x1, x0, 1").is_ok());
    let mut asm2 = Assembler::new();
    assert!(asm2.assemble("AdDi x1, x0, 1").is_ok());
}

#[test]
fn test_assemble_unknown_instruction() {
    let mut engine = Assembler::new();
    match engine.assemble("bogus x1, x0, 1") {
        Err(AsmError::UnknownInstruction(m)) => assert_eq!(m, "bogus"),
        other => panic!("expected an unknown-instruction error, got {:?}", other),
    }
    // The unknown mnemonic is reported lowercased.
    let mut asm2 = Assembler::new();
    match asm2.assemble("BOGUS x1") {
        Err(AsmError::UnknownInstruction(m)) => assert_eq!(m, "bogus"),
        other => panic!("expected an unknown-instruction error, got {:?}", other),
    }
}

#[test]
fn test_collect_labels_addresses() {
    let mut engine = Assembler::new();
    let source = "start:\naddi x1, x0, 1\nloop:\naddi x2, x0, 2\naddi x3, x0, 3\nend:\n";
    engine.assemble(source).unwrap();
    assert_eq!(engine.labels.get("start"), Some(0));
    assert_eq!(engine.labels.get("loop"), Some(4));
    assert_eq!(engine.labels.get("end"), Some(12));
    assert_eq!(engine.labels.get("missing"), None);
}

#[test]
fn test_label_table_shadowing() {
    let mut table = LabelTable::new();
    assert_eq!(table.get("a"), None);
    table.insert(String::from("a"), 4);
    table.insert(String::from("b"), 8);
    assert_eq!(table.get("a"), Some(4));
    assert_eq!(table.get("b"), Some(8));
    // A later definition of the same name shadows the earlier one.
    table.insert(String::from("a"), 16);
    assert_eq!(table.get("a"), Some(16));
}

#[test]
fn test_encode_instruction_stub() {
    let table = LabelTable::new();
    let w = encode_instruction("addi x1, x0, 42", 0, &table).unwrap();
    assert_eq!(w, InstructionEncoder::i_type(0b0010011, 1, 0b000, 0, 42));

    match encode_instruction("   ", 0, &table) {
        Err(AsmError::ParseError(m)) => assert_eq!(m, "Empty instruction"),
        other => panic!("expected a parse error, got {:?}", other),
    }

    match encode_instruction("nop", 0, &table) {
        Err(AsmError::UnknownInstruction(m)) => assert_eq!(m, "nop"),
        other => panic!("expected an unknown-instruction error, got {:?}", other),
    }
}

#[test]
fn test_parse_assembly_stub() {
    assert!(parse_assembly("").is_ok());
    assert!(parse_assembly("addi x1, x0, 42").is_ok());
}

#[test]
fn test_assemble_crlf_and_comments() {
    let mut engine = Assembler::new();
    let source = "# header\r\nstart:\r\naddi x1, x0, 1\r\n";
    let program = engine.assemble(source).unwrap();
    assert_eq!(program.len(), 1);
    assert_eq!(program[0].0, 0);
    assert_eq!(engine.labels.get("start"), Some(0));
}
