//! Tests of instruction field extraction, the encoders as their mutual
//! inverses, and the disassembler's text.

use riscv_sim::DisasmError;
use riscv_sim::Instruction;
use riscv_sim::InstructionEncoder;
use riscv_sim::disasm::reg_name;
use riscv_sim::disassemble;

#[test]
fn test_disasm_addi() {
    let inst = InstructionEncoder::i_type(0b0010011, 1, 0b000, 0, 42);
    let text = disassemble(inst).unwrap();
    assert!(text.contains("addi"));
    assert!(text.contains("42"));
}

#[test]
fn test_disasm_add() {
    let inst = InstructionEncoder::r_type(0b0110011, 3, 0b000, 1, 2, 0b0000000);
    let text = disassemble(inst).unwrap();
    assert!(text.contains("add"));
}

#[test]
fn test_disasm_exact_text() {
    let addi = InstructionEncoder::i_type(0b0010011, 1, 0b000, 0, 42);
    assert_eq!(disassemble(addi).unwrap(), "addi x1(ra), x0(zero), 42");

    let lui = InstructionEncoder::u_type(0b0110111, 5, (0x12345u32 << 12) as i32);
    assert_eq!(disassemble(lui).unwrap(), "lui x5(t0), 0x12345");

    let jal = InstructionEncoder::j_type(0b1101111, 1, -4);
    assert_eq!(disassemble(jal).unwrap(), "jal x1(ra), -4");

    let beq = InstructionEncoder::b_type(0b1100011, 0b000, 10, 11, 16);
    assert_eq!(disassemble(beq).unwrap(), "beq x10(a0), x11(a1), 16");

    let lw = InstructionEncoder::i_type(0b0000011, 3, 0b010, 2, 8);
    assert_eq!(disassemble(lw).unwrap(), "lw x3(gp), 8(x2(sp))");

    let sw = InstructionEncoder::s_type(0b0100011, 0b010, 2, 3, -12);
    assert_eq!(disassemble(sw).unwrap(), "sw x3(gp), -12(x2(sp))");

    let jalr = InstructionEncoder::i_type(0b1100111, 1, 0b000, 5, 0);
    assert_eq!(disassemble(jalr).unwrap(), "jalr x1(ra), 0(x5(t0))");

    let sub = InstructionEncoder::r_type(0b0110011, 4, 0b000, 1, 2, 0b0100000);
    assert_eq!(disassemble(sub).unwrap(), "sub x4(tp), x1(ra), x2(sp)");

    assert_eq!(disassemble(0x00000073).unwrap(), "ecall");
    assert_eq!(disassemble(0x00100073).unwrap(), "ebreak");
}

#[test]
fn test_disasm_errors() {
    // All-ones has opcode 0x7F, which no RV32I family uses.
    assert_eq!(
        disassemble(0xFFFF_FFFF).unwrap_err(),
        DisasmError::UnknownOpcode(0x7F)
    );

    // A branch with funct3 = 010 selects no condition.
    let bad_branch = InstructionEncoder::b_type(0b1100011, 0b010, 1, 2, 8);
    assert_eq!(
        disassemble(bad_branch).unwrap_err(),
        DisasmError::InvalidInstruction(bad_branch)
    );

    // A load with funct3 = 011 selects no width.
    let bad_load = InstructionEncoder::i_type(0b0000011, 1, 0b011, 0, 0);
    assert_eq!(
        disassemble(bad_load).unwrap_err(),
        DisasmError::InvalidInstruction(bad_load)
    );

    // A store with funct3 = 011 selects no width.
    let bad_store = InstructionEncoder::s_type(0b0100011, 0b011, 0, 0, 0);
    assert_eq!(
        disassemble(bad_store).unwrap_err(),
        DisasmError::InvalidInstruction(bad_store)
    );

    // An OP with funct3 = 000 demands funct7 0000000 or 0100000.
    let bad_op = InstructionEncoder::r_type(0b0110011, 1, 0b000, 1, 2, 0b1111111);
    assert_eq!(
        disassemble(bad_op).unwrap_err(),
        DisasmError::InvalidInstruction(bad_op)
    );

    // The only SYSTEM words are the canonical ECALL and EBREAK.
    assert_eq!(
        disassemble(0x00200073).unwrap_err(),
        DisasmError::InvalidInstruction(0x00200073)
    );
}

#[test]
fn test_reg_name_text() {
    assert_eq!(reg_name(0), "x0(zero)");
    assert_eq!(reg_name(1), "x1(ra)");
    assert_eq!(reg_name(2), "x2(sp)");
    assert_eq!(reg_name(10), "x10(a0)");
    assert_eq!(reg_name(26), "x26(s10)");
    assert_eq!(reg_name(31), "x31(t6)");
    assert_eq!(reg_name(40), "x40");
}

#[test]
fn test_field_extraction() {
    // ADD x3, x1, x2 assembled by hand: funct7=0, rs2=2, rs1=1, funct3=0,
    // rd=3, opcode=0110011.
    let w: u32 = (2 << 20) | (1 << 15) | (3 << 7) | 0b0110011;
    let inst = Instruction::new(w);
    assert_eq!(inst.opcode(), 0b0110011);
    assert_eq!(inst.rd(), 3);
    assert_eq!(inst.rs1(), 1);
    assert_eq!(inst.rs2(), 2);
    assert_eq!(inst.funct3(), 0);
    assert_eq!(inst.funct7(), 0);
}

#[test]
fn test_immediate_sign_extension() {
    let neg = Instruction::new(InstructionEncoder::i_type(0b0010011, 1, 0b000, 0, -1));
    assert_eq!(neg.imm_i(), -1);

    let pos = Instruction::new(InstructionEncoder::i_type(0b0010011, 1, 0b000, 0, 2047));
    assert_eq!(pos.imm_i(), 2047);

    let s = Instruction::new(InstructionEncoder::s_type(0b0100011, 0b010, 1, 2, -2048));
    assert_eq!(s.imm_s(), -2048);

    let b = Instruction::new(InstructionEncoder::b_type(0b1100011, 0b000, 1, 2, -4096));
    assert_eq!(b.imm_b(), -4096);

    let u = Instruction::new(InstructionEncoder::u_type(0b0110111, 1, (0x80000u32 << 12) as i32));
    assert_eq!(u.imm_u(), (0x80000u32 << 12) as i32);

    let j = Instruction::new(InstructionEncoder::j_type(0b1101111, 1, -2));
    assert_eq!(j.imm_j(), -2);
}

#[test]
fn test_encode_decode_round_trip() {
    // Decoding an encoded word recovers every field, for each format.
    let i = Instruction::new(InstructionEncoder::i_type(0b0010011, 7, 0b101, 13, -77));
    assert_eq!(i.opcode(), 0b0010011);
    assert_eq!(i.rd(), 7);
    assert_eq!(i.funct3(), 0b101);
    assert_eq!(i.rs1(), 13);
    assert_eq!(i.imm_i(), -77);

    let s = Instruction::new(InstructionEncoder::s_type(0b0100011, 0b001, 9, 21, 1023));
    assert_eq!(s.funct3(), 0b001);
    assert_eq!(s.rs1(), 9);
    assert_eq!(s.rs2(), 21);
    assert_eq!(s.imm_s(), 1023);

    let b = Instruction::new(InstructionEncoder::b_type(0b1100011, 0b111, 30, 31, -2046));
    assert_eq!(b.imm_b(), -2046);

    let u = Instruction::new(InstructionEncoder::u_type(0b0110111, 15, (0xABCDEu32 << 12) as i32));
    assert_eq!(u.rd(), 15);
    assert_eq!(u.imm_u(), (0xABCDEu32 << 12) as i32);

    let j = Instruction::new(InstructionEncoder::j_type(0b1101111, 17, 0xFFFE));
    assert_eq!(j.rd(), 17);
    assert_eq!(j.imm_j(), 0xFFFE);
}

#[test]
fn test_decode_encode_round_trip_on_words() {
    // Encoding the decoded fields reproduces the word, for each format.
    let words: [u32; 5] = [0x02A00093, 0xFFF1_8193, 0x0020_8463, 0xDEAD_B737, 0xFF5F_F0EF];
    for &w in words.iter() {
        let inst = Instruction::new(w);
        let i = InstructionEncoder::i_type(
            inst.opcode(),
            inst.rd(),
            inst.funct3(),
            inst.rs1(),
            inst.imm_i(),
        );
        assert_eq!(i, w);
        let s = InstructionEncoder::s_type(
            inst.opcode(),
            inst.funct3(),
            inst.rs1(),
            inst.rs2(),
            inst.imm_s(),
        );
        assert_eq!(s, w);
        let b = InstructionEncoder::b_type(
            inst.opcode(),
            inst.funct3(),
            inst.rs1(),
            inst.rs2(),
            inst.imm_b(),
        );
        assert_eq!(b, w);
        let u = InstructionEncoder::u_type(inst.opcode(), inst.rd(), inst.imm_u());
        let r = InstructionEncoder::r_type(
            inst.opcode(),
            inst.rd(),
            inst.funct3(),
            inst.rs1(),
            inst.rs2(),
            inst.funct7(),
        );
        assert_eq!(r, w);
        let j = InstructionEncoder::j_type(inst.opcode(), inst.rd(), inst.imm_j());
        assert_eq!(u, w);
        assert_eq!(j, w);
    }
}
