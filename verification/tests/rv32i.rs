//! End-to-end tests of the RV32I datapath: ALU semantics, the hardwired
//! zero register, memory alignment rules, and whole-program execution.

use riscv_sim::AluOp;
use riscv_sim::Alu;
use riscv_sim::Cpu;
use riscv_sim::InstructionEncoder;
use riscv_sim::Memory;
use riscv_sim::RegisterFile;

#[test]
fn test_basic_execution() {
    let mut cpu = Cpu::new();

    // ADDI x1, x0, 42
    let inst = InstructionEncoder::i_type(0b0010011, 1, 0b000, 0, 42);
    cpu.load_program(&[(0, inst)]);
    cpu.reset();
    cpu.clock();

    assert_eq!(cpu.get_cycle_count(), 1);
}

#[test]
fn test_x0_hardwired() {
    let mut rf = RegisterFile::new();

    // Try to write to x0.
    rf.clock(0, 999, true, 1);

    // x0 should still be 0.
    assert_eq!(rf.get_read_data_a(), 0);
}

#[test]
fn test_alu_operations() {
    let mut alu = Alu::new();

    assert_eq!(alu.execute(AluOp::Add, 10, 20), 30);
    assert_eq!(alu.execute(AluOp::Sub, 30, 15), 15);
    assert_eq!(alu.execute(AluOp::And, 0xFF, 0x0F), 0x0F);
    assert_eq!(alu.execute(AluOp::Sll, 1, 4), 16);
}

#[test]
fn test_alu_full_table() {
    let mut alu = Alu::new();

    assert_eq!(alu.execute(AluOp::Add, 10, 20), 30);
    assert_eq!(alu.execute(AluOp::Sub, 30, 15), 15);
    assert_eq!(alu.execute(AluOp::And, 0xFF, 0x0F), 0x0F);
    assert_eq!(alu.execute(AluOp::Or, 0xF0, 0x0F), 0xFF);
    assert_eq!(alu.execute(AluOp::Xor, 0xFF, 0xAA), 0x55);
    assert_eq!(alu.execute(AluOp::Sll, 1, 4), 16);
    assert_eq!(alu.execute(AluOp::Srl, 16, 2), 4);
    assert_eq!(alu.execute(AluOp::Sra, 0xFFFF_FFF0, 2), 0xFFFF_FFFC);
    assert_eq!(alu.execute(AluOp::Slt, 5, 10), 1);
    assert_eq!(alu.execute(AluOp::Sltu, 5, 10), 1);
}

#[test]
fn test_alu_flags() {
    let mut alu = Alu::new();

    // Zero flag.
    alu.execute(AluOp::Sub, 7, 7);
    assert!(alu.is_zero());
    assert!(alu.get_flags().zero);

    // Carry out of an unsigned add that wraps.
    alu.execute(AluOp::Add, 0xFFFF_FFFF, 1);
    assert!(alu.get_flags().carry);
    assert!(alu.get_flags().zero);

    // Signed overflow: max positive plus one.
    alu.execute(AluOp::Add, 0x7FFF_FFFF, 1);
    assert!(alu.get_flags().overflow);
    assert!(alu.get_flags().negative);

    // A plain add raises nothing.
    alu.execute(AluOp::Add, 2, 3);
    let f = alu.get_flags();
    assert!(!f.zero && !f.carry && !f.negative && !f.overflow);
}

#[test]
fn test_alignment_drop() {
    // A halfword write to an odd address leaves memory unchanged.
    let mut mem = Memory::new();
    mem.load_program(&[(0, 0xAABBCCDD)]);
    mem.set_write_mask(0b0011);
    mem.clock(false, true, 1, 0x1234);
    assert_eq!(mem.fetch(0), 0xAABBCCDD);

    // A word write to a non-4-aligned address leaves memory unchanged.
    mem.set_write_mask(0b1111);
    mem.clock(false, true, 2, 0x5678_9ABC);
    assert_eq!(mem.fetch(0), 0xAABBCCDD);

    // The aligned counterparts do store.
    mem.set_write_mask(0b0011);
    mem.clock(false, true, 2, 0x1234);
    assert_eq!(mem.fetch(0), 0x1234CCDD);
    mem.set_write_mask(0b1111);
    mem.clock(false, true, 0, 0x5678_9ABC);
    assert_eq!(mem.fetch(0), 0x5678_9ABC);
}

#[test]
fn test_byte_write_masking() {
    let mut mem = Memory::new();
    mem.load_program(&[(4, 0x11223344)]);
    mem.set_write_mask(0b0001);
    mem.clock(false, true, 5, 0xFF);
    assert_eq!(mem.fetch(4), 0x1122FF44);
}

#[test]
fn test_memory_wraparound() {
    let mut mem = Memory::new();
    mem.load_program(&[(0, 0xCAFEF00D)]);
    // 4096 bytes of memory: byte address 4096 wraps to word 0.
    assert_eq!(mem.fetch(4096), 0xCAFEF00D);
}

#[test]
fn test_end_to_end_program() {
    let mut cpu = Cpu::new();

    let program = vec![
        (0, InstructionEncoder::i_type(0b0010011, 1, 0b000, 0, 42)), // ADDI x1, x0, 42
        (4, InstructionEncoder::i_type(0b0010011, 2, 0b000, 0, 8)), // ADDI x2, x0, 8
        (8, InstructionEncoder::r_type(0b0110011, 3, 0b000, 1, 2, 0b0000000)), // ADD x3, x1, x2
        (12, InstructionEncoder::r_type(0b0110011, 4, 0b000, 1, 2, 0b0100000)), // SUB x4, x1, x2
        (16, InstructionEncoder::r_type(0b0110011, 5, 0b111, 1, 2, 0b0000000)), // AND x5, x1, x2
    ];
    cpu.load_program(&program);
    cpu.reset();
    cpu.run_cycles(5);

    assert_eq!(cpu.registers.peek(1), 42);
    assert_eq!(cpu.registers.peek(2), 8);
    assert_eq!(cpu.registers.peek(3), 50);
    assert_eq!(cpu.registers.peek(4), 34);
    assert_eq!(cpu.registers.peek(5), 8);
    assert_eq!(cpu.get_cycle_count(), 5);
}

#[test]
fn test_x0_write_through_instruction() {
    let mut cpu = Cpu::new();
    let program = vec![
        (0, InstructionEncoder::i_type(0b0010011, 0, 0b000, 0, 100)), // ADDI x0, x0, 100
        (4, InstructionEncoder::i_type(0b0010011, 1, 0b000, 0, 50)), // ADDI x1, x0, 50
    ];
    cpu.load_program(&program);
    cpu.reset();
    cpu.run_cycles(2);

    assert_eq!(cpu.registers.peek(0), 0);
    assert_eq!(cpu.registers.peek(1), 50);
}

#[test]
fn test_jal_links_and_jumps() {
    let mut cpu = Cpu::new();
    // JAL x1, +16 placed at byte address 8.
    let jal = InstructionEncoder::j_type(0b1101111, 1, 16);
    cpu.load_program(&[(8, jal)]);
    cpu.reset();
    cpu.control.set_pc(8);
    cpu.clock();

    assert_eq!(cpu.control.get_pc(), 24);
    assert_eq!(cpu.registers.peek(1), 12);
}

#[test]
fn test_jalr_clears_bit_zero() {
    let mut cpu = Cpu::new();
    // Put an odd target address into x2, then JALR x1, 0(x2) at address 0.
    let jalr = InstructionEncoder::i_type(0b1100111, 1, 0b000, 2, 0);
    cpu.load_program(&[(0, jalr)]);
    cpu.reset();
    cpu.registers.clock(2, 0x103, true, 0);
    cpu.clock();

    // Bit 0 is cleared by JALR and the PC is forced to a 4-byte boundary.
    assert_eq!(cpu.control.get_pc(), 0x100);
    assert_eq!(cpu.registers.peek(1), 4);
}

#[test]
fn test_branch_taken_and_not_taken() {
    let mut cpu = Cpu::new();
    // x1 = 5; x2 = 5; BEQ x1, x2, +8 -> branch taken from address 8 to 16.
    let program = vec![
        (0, InstructionEncoder::i_type(0b0010011, 1, 0b000, 0, 5)),
        (4, InstructionEncoder::i_type(0b0010011, 2, 0b000, 0, 5)),
        (8, InstructionEncoder::b_type(0b1100011, 0b000, 1, 2, 8)),
    ];
    cpu.load_program(&program);
    cpu.reset();
    cpu.run_cycles(3);
    assert_eq!(cpu.control.get_pc(), 16);

    // BNE over equal values falls through.
    let mut cpu2 = Cpu::new();
    let program2 = vec![
        (0, InstructionEncoder::i_type(0b0010011, 1, 0b000, 0, 5)),
        (4, InstructionEncoder::i_type(0b0010011, 2, 0b000, 0, 5)),
        (8, InstructionEncoder::b_type(0b1100011, 0b001, 1, 2, 8)),
    ];
    cpu2.load_program(&program2);
    cpu2.reset();
    cpu2.run_cycles(3);
    assert_eq!(cpu2.control.get_pc(), 12);
}

#[test]
fn test_store_then_load() {
    let mut cpu = Cpu::new();
    // The datapath feeds the ALU the I-immediate whenever the second
    // operand is an immediate, stores included: the S-format word below
    // reads as I-immediate 68 (imm[11:5] joined with rs2 = 4), so that is
    // the byte address the store lands on.
    let program = vec![
        (0, InstructionEncoder::i_type(0b0010011, 4, 0b000, 0, 77)), // ADDI x4, x0, 77
        (4, InstructionEncoder::s_type(0b0100011, 0b010, 0, 4, 64)), // SW x4, 64(x0)
        (8, InstructionEncoder::i_type(0b0000011, 3, 0b010, 0, 68)), // LW x3, 68(x0)
    ];
    cpu.load_program(&program);
    cpu.reset();
    cpu.run_cycles(3);

    assert_eq!(cpu.memory.fetch(68), 77);
    assert_eq!(cpu.registers.peek(3), 77);
}

#[test]
fn test_fibonacci_loop() {
    let mut cpu = Cpu::new();

    let program = vec![
        // x1 = 1 (fib n-2), x2 = 1 (fib n-1), x3 = 10 (counter)
        (0, InstructionEncoder::i_type(0b0010011, 1, 0b000, 0, 1)),
        (4, InstructionEncoder::i_type(0b0010011, 2, 0b000, 0, 1)),
        (8, InstructionEncoder::i_type(0b0010011, 3, 0b000, 0, 10)),
        // Loop: x4 = x1 + x2; x1 = x2; x2 = x4; x3 -= 1; BNE x3, x0, -16
        (12, InstructionEncoder::r_type(0b0110011, 4, 0b000, 1, 2, 0b0000000)),
        (16, InstructionEncoder::r_type(0b0110011, 1, 0b000, 2, 0, 0b0000000)),
        (20, InstructionEncoder::r_type(0b0110011, 2, 0b000, 4, 0, 0b0000000)),
        (24, InstructionEncoder::i_type(0b0010011, 3, 0b000, 3, -1)),
        (28, InstructionEncoder::b_type(0b1100011, 0b001, 3, 0, -16)),
    ];
    cpu.load_program(&program);
    cpu.reset();
    cpu.run_cycles(100);

    // Ten loop iterations seeded with 1, 1 leave the tenth following
    // Fibonacci value in x2.
    assert_eq!(cpu.registers.peek(2), 144);
    assert_eq!(cpu.registers.peek(3), 0);
    assert_eq!(cpu.get_cycle_count(), 100);
}

#[test]
fn test_lui_and_auipc() {
    let mut cpu = Cpu::new();
    // The immediate the ALU sees is always the I-form field, so a U-format
    // word contributes its bits 31:20: 0x123 for the LUI below, 0x010 for
    // the AUIPC.  LUI passes that through over operand A = 0; AUIPC adds
    // its PC.
    let program = vec![
        (0, InstructionEncoder::u_type(0b0110111, 1, 0x12345 << 12)), // LUI x1, 0x12345
        (4, InstructionEncoder::u_type(0b0010111, 2, 0x1000 << 12)), // AUIPC x2, 0x1000
    ];
    cpu.load_program(&program);
    cpu.reset();
    cpu.run_cycles(2);

    assert_eq!(cpu.registers.peek(1), 0x123);
    assert_eq!(cpu.registers.peek(2), 0x010 + 4);
}

#[test]
fn test_reset_preserves_memory() {
    let mut cpu = Cpu::new();
    cpu.load_program(&[(0, InstructionEncoder::i_type(0b0010011, 1, 0b000, 0, 9))]);
    cpu.run_cycles(1);
    cpu.reset();

    assert_eq!(cpu.get_cycle_count(), 0);
    assert_eq!(cpu.control.get_pc(), 0);
    assert_eq!(cpu.registers.peek(1), 0);
    // Loaded memory contents survive the reset.
    assert_eq!(
        cpu.memory.fetch(0),
        InstructionEncoder::i_type(0b0010011, 1, 0b000, 0, 9)
    );
}

#[test]
fn test_unknown_opcode_is_nop() {
    let mut cpu = Cpu::new();
    cpu.load_program(&[(0, 0xFFFF_FFFF)]);
    cpu.reset();
    cpu.clock();

    // No register changed, no memory write, PC just advanced.
    assert_eq!(cpu.control.get_pc(), 4);
    for i in 0..32 {
        assert_eq!(cpu.registers.peek(i), 0);
    }
}

#[test]
fn test_op_funct7_bit5_selects_sub_and_sra() {
    // The OP family keys Sub and Sra on bit 5 of funct7, so a nonstandard
    // funct7 with that bit set still subtracts or shifts arithmetically.
    let mut cpu = Cpu::new();
    let program = vec![
        (0, InstructionEncoder::i_type(0b0010011, 1, 0b000, 0, -8)), // ADDI x1, x0, -8
        (4, InstructionEncoder::i_type(0b0010011, 2, 0b000, 0, 2)), // ADDI x2, x0, 2
        (8, InstructionEncoder::r_type(0b0110011, 3, 0b000, 1, 2, 0b0100001)), // SUB-like
        (12, InstructionEncoder::r_type(0b0110011, 4, 0b101, 1, 2, 0b0100001)), // SRA-like
        (16, InstructionEncoder::r_type(0b0110011, 5, 0b101, 1, 2, 0b0000001)), // SRL-like
    ];
    cpu.load_program(&program);
    cpu.reset();
    cpu.run_cycles(5);

    assert_eq!(cpu.registers.peek(3), (-10i32) as u32); // -8 - 2
    assert_eq!(cpu.registers.peek(4), (-2i32) as u32); // -8 >> 2, arithmetic
    assert_eq!(cpu.registers.peek(5), 0xFFFF_FFF8u32 >> 2); // -8 >> 2, logical
}
