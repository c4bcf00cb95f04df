//! CPU orchestration: one fetch-decode-execute step per `clock` call.
//!
//! The whole cycle — fetch, decode, register read, ALU execute, memory
//! access, write-back and PC update — happens within one call, with no
//! externally observable sub-states.  [`spec_step`] is the mathematical
//! description of that transition; `clock` is proved to realize it exactly.

use crate::alu::Alu;
use crate::alu::spec_alu_flags;
use crate::alu::spec_alu_result;
use crate::control_unit::ControlUnit;
use crate::control_unit::spec_decode;
use crate::control_unit::spec_next_pc;
use crate::instruction::Addr;
use crate::instruction::Instruction;
use crate::instruction::Word;
use crate::instruction::signed32;
use crate::instruction::spec_imm_b;
use crate::instruction::spec_imm_i;
use crate::instruction::spec_imm_j;
use crate::instruction::wrap32;
use crate::memory::Memory;
use crate::memory::MemoryView;
use crate::memory::spec_fetch;
use crate::memory::spec_load_program;
use crate::memory::spec_write_mem;
use crate::register_file::RegFileView;
use crate::register_file::RegisterFile;
use crate::register_file::spec_read;
use crate::register_file::spec_write;
use vstd::prelude::*;

verus! {

/// The branch condition of instruction word `w` evaluated on the two
/// register values: BEQ, BNE, BLT, BGE, BLTU, BGEU by funct3.  False for
/// anything that is not a branch instruction.
pub open spec fn spec_branch_taken(w: Word, rs1_data: Word, rs2_data: Word) -> bool {
    if w & 0x7F != 0b1100011 {
        false
    } else {
        let funct3 = (w >> 12) & 0x7;
        if funct3 == 0b000 {
            rs1_data == rs2_data
        } else if funct3 == 0b001 {
            rs1_data != rs2_data
        } else if funct3 == 0b100 {
            signed32(rs1_data) < signed32(rs2_data)
        } else if funct3 == 0b101 {
            signed32(rs1_data) >= signed32(rs2_data)
        } else if funct3 == 0b110 {
            rs1_data < rs2_data
        } else if funct3 == 0b111 {
            rs1_data >= rs2_data
        } else {
            false
        }
    }
}

/// Control-transfer target of instruction word `w` at address `pc`: JAL is
/// PC-relative by the J immediate, JALR is register-relative by the I
/// immediate with bit 0 cleared, a branch is PC-relative by the B
/// immediate; anything else falls through to the next instruction.
pub open spec fn spec_jump_target(w: Word, pc: Addr, rs1_data: Word) -> Addr {
    let opcode = w & 0x7F;
    if opcode == 0b1101111 {
        wrap32(pc + spec_imm_j(w))
    } else if opcode == 0b1100111 {
        wrap32(rs1_data + spec_imm_i(w)) & !1u32
    } else if opcode == 0b1100011 {
        wrap32(pc + spec_imm_b(w))
    } else {
        wrap32(pc + 4)
    }
}

/// Mathematical state of a [`Cpu`]: the views of its submodules and the
/// cycle counter.
pub ghost struct CpuView {
    pub mem: MemoryView,
    pub regs: RegFileView,
    pub control: ControlUnit,
    pub alu: Alu,
    pub cycle_count: u64,
}

impl CpuView {
    /// The memory and register arrays have their architectural sizes.
    pub open spec fn wf(&self) -> bool {
        &&& self.mem.data.len() == crate::memory::MEM_WORDS
        &&& self.regs.registers.len() == crate::register_file::NUM_REGISTERS
    }
}

/// One full fetch-decode-execute cycle, as a function from CPU state to CPU
/// state.  Every latch of every submodule is accounted for.
pub open spec fn spec_step(c: CpuView) -> CpuView {
    let pc = c.control.program_counter;
    let w = spec_fetch(c.mem.data, pc);
    let sig = spec_decode(w);
    let rs1 = ((w >> 15) & 0x1F) as u8;
    let rs2 = ((w >> 20) & 0x1F) as u8;
    let rd = ((w >> 7) & 0x1F) as u8;
    // Register read: both ports latch, storage is untouched.
    let regs_read = RegFileView {
        registers: c.regs.registers,
        addr_a: rs1,
        write_data_a: 0,
        write_enable_a: false,
        addr_b: rs2,
        read_data_a: spec_read(c.regs.registers, rs1, c.regs.read_data_a),
        read_data_b: spec_read(c.regs.registers, rs2, c.regs.read_data_b),
    };
    let rs1_data = regs_read.read_data_a;
    let rs2_data = regs_read.read_data_b;
    // Operand selection: AUIPC takes the PC, LUI takes zero; the second
    // operand is the I immediate when the decoder says so.
    let op_a = if w & 0x7F == 0b0010111 {
        pc
    } else if w & 0x7F == 0b0110111 {
        0
    } else {
        rs1_data
    };
    let op_b = if sig.alu_src {
        wrap32(spec_imm_i(w))
    } else {
        rs2_data
    };
    let alu_result = spec_alu_result(sig.alu_op, op_a, op_b);
    let alu_after = Alu { result: alu_result, flags: spec_alu_flags(sig.alu_op, op_a, op_b) };
    // Memory stage: only loads and stores touch the memory unit.
    let mem_after = if sig.mem_read || sig.mem_write {
        let data_after = if sig.mem_write {
            spec_write_mem(c.mem.data, alu_result, rs2_data, c.mem.write_mask)
        } else {
            c.mem.data
        };
        MemoryView {
            data: data_after,
            read_enable: sig.mem_read,
            write_enable: sig.mem_write,
            address: alu_result,
            write_data: rs2_data,
            read_data: if sig.mem_read {
                spec_fetch(data_after, alu_result)
            } else {
                c.mem.read_data
            },
            write_mask: c.mem.write_mask,
        }
    } else {
        c.mem
    };
    let mem_data = if sig.mem_read || sig.mem_write {
        mem_after.read_data
    } else {
        0
    };
    // Write-back: from memory for loads, the return address for jumps, the
    // ALU result for everything else.
    let regs_after = if sig.reg_write {
        let wb = if sig.mem_to_reg {
            mem_data
        } else if sig.jump {
            wrap32(pc + 4)
        } else {
            alu_result
        };
        let stored = spec_write(regs_read.registers, rd, wb, true);
        RegFileView {
            registers: stored,
            addr_a: rd,
            write_data_a: wb,
            write_enable_a: true,
            addr_b: 0,
            read_data_a: spec_read(stored, rd, regs_read.read_data_a),
            read_data_b: 0,
        }
    } else {
        regs_read
    };
    let taken = spec_branch_taken(w, rs1_data, rs2_data);
    let target = spec_jump_target(w, pc, rs1_data);
    let control_after = ControlUnit {
        current_instruction: Instruction { raw: w },
        control_signals: sig,
        program_counter: spec_next_pc(sig, pc, taken, target),
    };
    CpuView {
        mem: mem_after,
        regs: regs_after,
        control: control_after,
        alu: alu_after,
        cycle_count: (c.cycle_count + 1) as u64,
    }
}

/// `n` consecutive cycles of [`spec_step`].
pub open spec fn spec_run(c: CpuView, n: nat) -> CpuView
    decreases n,
{
    if n == 0 {
        c
    } else {
        spec_run(spec_step(c), (n - 1) as nat)
    }
}

/// RV32I CPU: memory, register file, control unit and ALU, advanced one
/// atomic fetch-decode-execute step per `clock` call.
pub struct Cpu {
    pub memory: Memory,
    pub registers: RegisterFile,
    pub control: ControlUnit,
    pub alu: Alu,
    pub cycle_count: u64,
}

impl View for Cpu {
    type V = CpuView;

    open spec fn view(&self) -> CpuView {
        CpuView {
            mem: self.memory@,
            regs: self.registers@,
            control: self.control,
            alu: self.alu,
            cycle_count: self.cycle_count,
        }
    }
}

impl Cpu {
    /// The submodule arrays have their architectural sizes.
    pub open spec fn wf(&self) -> bool {
        self.memory.wf() && self.registers.wf()
    }

    pub fn new() -> (cpu: Cpu)
        ensures
            cpu.wf(),
            cpu@.mem.data == Seq::new(crate::memory::MEM_WORDS as nat, |i: int| 0u32),
            cpu@.regs.registers == Seq::new(
                crate::register_file::NUM_REGISTERS as nat,
                |i: int| 0u32,
            ),
            cpu@.control.program_counter == 0,
            cpu@.control.control_signals == crate::control_unit::spec_signals_default(),
            cpu@.control.current_instruction.raw == 0,
            cpu@.alu == (Alu {
                result: 0,
                flags: crate::alu::Flags {
                    zero: false,
                    carry: false,
                    negative: false,
                    overflow: false,
                },
            }),
            cpu@.cycle_count == 0,
    {
        Cpu {
            memory: Memory::new(),
            registers: RegisterFile::new(),
            control: ControlUnit::new(),
            alu: Alu::new(),
            cycle_count: 0,
        }
    }

    /// One clock cycle: the state advances by exactly [`spec_step`].
    pub fn clock(&mut self)
        requires
            old(self).wf(),
            old(self).cycle_count < u64::MAX,
        ensures
            final(self).wf(),
            final(self)@ == spec_step(old(self)@),
    {
        self.cycle_count = self.cycle_count + 1;

        // FETCH: the instruction word the PC points at.
        let pc = self.control.get_pc();
        let instruction_word = self.memory.fetch(pc);
        let inst = Instruction::new(instruction_word);

        // DECODE: control signals for this instruction.
        self.control.clock(inst);
        let ctrl = self.control.get_control_signals();

        // REGISTER READ: both source registers.
        let rs1 = inst.rs1();
        let rs2 = inst.rs2();
        let rd = inst.rd();
        self.registers.clock(rs1, 0, false, rs2);
        let rs1_data = self.registers.get_read_data_a();
        let rs2_data = self.registers.get_read_data_b();

        // EXECUTE: operand selection and the ALU operation.
        let imm_i = inst.imm_i();
        proof {
            lemma_cast_i32_u32(imm_i);
        }
        let alu_operand_b = if ctrl.alu_src {
            imm_i as Word
        } else {
            rs2_data
        };
        let opcode = inst.opcode();
        let alu_operand_a = if opcode == 0b0010111 {
            pc
        } else if opcode == 0b0110111 {
            0
        } else {
            rs1_data
        };
        let alu_result = self.alu.execute(ctrl.alu_op, alu_operand_a, alu_operand_b);

        // MEMORY: loads and stores only.
        let mut mem_data: Word = 0;
        if ctrl.mem_read || ctrl.mem_write {
            self.memory.clock(ctrl.mem_read, ctrl.mem_write, alu_result, rs2_data);
            mem_data = self.memory.get_read_data();
        }

        // WRITE BACK: memory data, return address, or ALU result.
        if ctrl.reg_write {
            proof {
                lemma_wrap_add_u32(pc, 4);
            }
            let write_data = if ctrl.mem_to_reg {
                mem_data
            } else if ctrl.jump {
                pc.wrapping_add(4)
            } else {
                alu_result
            };
            self.registers.clock(rd, write_data, true, 0);
        }

        // PC UPDATE: branch evaluation and target computation.
        let branch_taken = self.should_branch(&inst, rs1_data, rs2_data);
        let jump_target = self.calculate_jump_target(&inst, pc, rs1_data);
        self.control.update_pc(branch_taken, jump_target);
    }

    /// Evaluate the branch condition of a branch instruction.
    fn should_branch(&self, inst: &Instruction, rs1_data: Word, rs2_data: Word) -> (taken: bool)
        ensures
            taken == spec_branch_taken(inst.raw, rs1_data, rs2_data),
    {
        if inst.opcode() != 0b1100011 {
            return false;
        }
        proof {
            crate::alu::lemma_signed_compare(rs1_data, rs2_data);
        }
        let funct3 = inst.funct3();
        if funct3 == 0b000 {
            rs1_data == rs2_data
        } else if funct3 == 0b001 {
            rs1_data != rs2_data
        } else if funct3 == 0b100 {
            (rs1_data as i32) < (rs2_data as i32)
        } else if funct3 == 0b101 {
            (rs1_data as i32) >= (rs2_data as i32)
        } else if funct3 == 0b110 {
            rs1_data < rs2_data
        } else if funct3 == 0b111 {
            rs1_data >= rs2_data
        } else {
            false
        }
    }

    /// Compute the control-transfer target of the current instruction.
    fn calculate_jump_target(&self, inst: &Instruction, pc: Addr, rs1_data: Word) -> (target:
        Addr)
        ensures
            target == spec_jump_target(inst.raw, pc, rs1_data),
    {
        let opcode = inst.opcode();
        if opcode == 0b1101111 {
            let imm = inst.imm_j();
            proof {
                lemma_wrap_add_signed(pc, imm);
            }
            pc.wrapping_add(imm as u32)
        } else if opcode == 0b1100111 {
            let imm = inst.imm_i();
            proof {
                lemma_wrap_add_signed(rs1_data, imm);
            }
            rs1_data.wrapping_add(imm as u32) & !1u32
        } else if opcode == 0b1100011 {
            let imm = inst.imm_b();
            proof {
                lemma_wrap_add_signed(pc, imm);
            }
            pc.wrapping_add(imm as u32)
        } else {
            proof {
                lemma_wrap_add_u32(pc, 4);
            }
            pc.wrapping_add(4)
        }
    }

    /// Run exactly `count` cycles; there is no halt instruction, so
    /// termination is the caller's cycle budget.
    pub fn run_cycles(&mut self, count: usize)
        requires
            old(self).wf(),
            old(self).cycle_count + count <= u64::MAX,
        ensures
            final(self).wf(),
            final(self)@ == spec_run(old(self)@, count as nat),
    {
        let mut i: usize = 0;
        while i < count
            invariant
                i <= count,
                self.wf(),
                self.cycle_count == old(self).cycle_count + i,
                old(self).cycle_count + count <= u64::MAX,
                spec_run(self@, (count - i) as nat) == spec_run(old(self)@, count as nat),
            decreases count - i,
        {
            proof {
                lemma_run_unfold(self@, (count - i) as nat);
                assert(spec_step(self@).cycle_count == self.cycle_count + 1);
            }
            self.clock();
            i = i + 1;
        }
    }

    pub fn get_cycle_count(&self) -> (n: u64)
        ensures
            n == self.cycle_count,
    {
        self.cycle_count
    }

    /// Zero the PC, the cycle counter, the register file and the ALU state;
    /// loaded memory contents are preserved unless the caller reloads them.
    pub fn reset(&mut self)
        ensures
            old(self).memory.wf() ==> final(self).wf(),
            final(self)@.mem == old(self)@.mem,
            final(self)@.regs.registers == Seq::new(
                crate::register_file::NUM_REGISTERS as nat,
                |i: int| 0u32,
            ),
            final(self)@.control.program_counter == 0,
            final(self)@.control.control_signals
                == crate::control_unit::spec_signals_default(),
            final(self)@.cycle_count == 0,
            final(self)@.alu == (Alu {
                result: 0,
                flags: crate::alu::Flags {
                    zero: false,
                    carry: false,
                    negative: false,
                    overflow: false,
                },
            }),
    {
        self.control.reset();
        self.registers.reset();
        self.alu = Alu::new();
        self.cycle_count = 0;
    }

    /// Load an RV32I program into memory: whole words at 4-byte aligned
    /// addresses only.
    pub fn load_program(&mut self, program: &[(Addr, Word)])
        requires
            old(self).wf(),
        ensures
            final(self).wf(),
            final(self)@.mem.data == spec_load_program(old(self)@.mem.data, program@),
            final(self)@.regs == old(self)@.regs,
            final(self)@.control == old(self)@.control,
            final(self)@.alu == old(self)@.alu,
            final(self)@.cycle_count == old(self)@.cycle_count,
            final(self)@.mem.read_data == old(self)@.mem.read_data,
            final(self)@.mem.write_mask == old(self)@.mem.write_mask,
    {
        self.memory.load_program(program);
    }
}

proof fn lemma_run_unfold(c: CpuView, n: nat)
    requires
        n > 0,
    ensures
        spec_run(c, n) == spec_run(spec_step(c), (n - 1) as nat),
{
}

proof fn lemma_cast_i32_u32(i: i32)
    by (bit_vector)
    ensures
        i as u32 == wrap32(i as int),
{
}

proof fn lemma_wrap_add_signed(a: u32, i: i32)
    by (bit_vector)
    ensures
        ((a + (i as u32)) % 0x1_0000_0000) as u32 == wrap32(a + i),
{
}

proof fn lemma_wrap_add_u32(a: u32, b: u32)
    by (bit_vector)
    ensures
        ((a + b) % 0x1_0000_0000) as u32 == wrap32(a + b),
{
}


/// The jump-and-link law: when the fetched instruction is a JAL at address
/// `p` with J immediate `i`, one step sets the PC to `p + i` (masked to a
/// 4-byte boundary) and writes the return address `p + 4` into `rd`; a JAL
/// with `rd == 0` leaves every register unchanged.  Memory is untouched.
pub proof fn lemma_jal_step(c: CpuView)
    requires
        c.wf(),
        spec_fetch(c.mem.data, c.control.program_counter) & 0x7F == 0b1101111,
    ensures
        ({
            let p = c.control.program_counter;
            let w = spec_fetch(c.mem.data, p);
            let rd = (w >> 7) & 0x1F;
            &&& spec_step(c).control.program_counter == wrap32(p + spec_imm_j(w)) & !0x3u32
            &&& rd != 0 ==> spec_step(c).regs.registers == c.regs.registers.update(
                rd as int,
                wrap32(p + 4),
            )
            &&& rd == 0 ==> spec_step(c).regs.registers == c.regs.registers
            &&& spec_step(c).mem.data == c.mem.data
        }),
{
    let p = c.control.program_counter;
    let w = spec_fetch(c.mem.data, p);
    crate::instruction::lemma_field_bounds(w);
}

/// The jump-and-link-register law: the computed JALR target always has bit
/// 0 cleared, and one step lands the PC on that target masked to a 4-byte
/// boundary while writing the return address `p + 4` into a nonzero `rd`.
pub proof fn lemma_jalr_step(c: CpuView)
    requires
        c.wf(),
        spec_fetch(c.mem.data, c.control.program_counter) & 0x7F == 0b1100111,
    ensures
        ({
            let p = c.control.program_counter;
            let w = spec_fetch(c.mem.data, p);
            let rd = (w >> 7) & 0x1F;
            let rs1 = (w >> 15) & 0x1F;
            let rs1_data = spec_read(c.regs.registers, rs1 as u8, c.regs.read_data_a);
            let target = spec_jump_target(w, p, rs1_data);
            &&& target & 1 == 0
            &&& spec_step(c).control.program_counter == target & !0x3u32
            &&& rd != 0 ==> spec_step(c).regs.registers == c.regs.registers.update(
                rd as int,
                wrap32(p + 4),
            )
            &&& rd == 0 ==> spec_step(c).regs.registers == c.regs.registers
        }),
{
    let p = c.control.program_counter;
    let w = spec_fetch(c.mem.data, p);
    crate::instruction::lemma_field_bounds(w);
    let rs1 = (w >> 15) & 0x1F;
    let rs1_data = spec_read(c.regs.registers, rs1 as u8, c.regs.read_data_a);
    let t = wrap32(rs1_data + spec_imm_i(w));
    assert((t & !1u32) & 1 == 0) by (bit_vector);
}

} // verus!
