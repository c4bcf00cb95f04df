//! Prototype CPU: integrates the word-addressed memory, the register file
//! and the byte-opcode control unit, with the ALU computed combinationally
//! inside the cycle.

use crate::alu::Flags;
use crate::proto::control_unit::ControlUnit;
use crate::proto::control_unit::spec_decode;
use crate::proto::control_unit::spec_next_pc;
use crate::proto::memory::Memory;
use crate::proto::memory::MemoryView;
use crate::proto::memory::spec_index;
use crate::proto::memory::spec_load;
use crate::proto::types::Instruction;
use crate::proto::types::Logic32;
use crate::proto::types::alu_execute;
use crate::proto::types::spec_alu_flags;
use crate::proto::types::spec_alu_result;
use crate::register_file::RegFileView;
use crate::register_file::RegisterFile;
use crate::register_file::spec_read;
use crate::register_file::spec_write;
use vstd::prelude::*;

verus! {

/// Mathematical state of a prototype [`Cpu`].
pub ghost struct CpuView {
    pub mem: MemoryView,
    pub regs: RegFileView,
    pub control: ControlUnit,
    pub alu_result: Logic32,
    pub alu_flags: Flags,
    pub cycle_count: u64,
}

impl CpuView {
    /// The memory and register arrays have their architectural sizes.
    pub open spec fn wf(&self) -> bool {
        &&& self.mem.data.len() == crate::proto::memory::PROTO_MEM_WORDS
        &&& self.regs.registers.len() == crate::register_file::NUM_REGISTERS
    }
}

/// One prototype cycle as a function from CPU state to CPU state: fetch the
/// word the PC indexes, split it into `{opcode, address, flags}`, decode and
/// move the PC (using the previous cycle's ALU flags), read the two register
/// fields, run the ALU, then access memory and write back as decoded.
pub open spec fn spec_step(c: CpuView) -> CpuView {
    let pc = c.control.program_counter;
    // Instruction fetch latches the memory read port.
    let fetched = MemoryView {
        read_enable: true,
        write_enable: false,
        address: pc,
        write_data: 0,
        read_data: c.mem.data[spec_index(pc)],
        ..c.mem
    };
    let w = fetched.read_data;
    let instruction = Instruction {
        opcode: (w & 0xFF) as u8,
        address: ((w >> 8) & 0xFFFF) as u16,
        flags: ((w >> 24) & 0x0F) as u8,
    };
    let sig = spec_decode(instruction.opcode);
    let control_after = ControlUnit {
        current_instruction: instruction,
        control_signals: sig,
        program_counter: spec_next_pc(sig, c.alu_flags, pc, instruction.address),
    };
    // Register read of the two 4-bit fields packed into the flags byte.
    let rs1 = (instruction.flags & 0x0F) as u8;
    let rs2 = ((instruction.flags >> 4) & 0x0F) as u8;
    let regs_read = RegFileView {
        registers: c.regs.registers,
        addr_a: rs1,
        write_data_a: 0,
        write_enable_a: false,
        addr_b: rs2,
        read_data_a: spec_read(c.regs.registers, rs1, c.regs.read_data_a),
        read_data_b: spec_read(c.regs.registers, rs2, c.regs.read_data_b),
    };
    let operand_a = regs_read.read_data_a;
    let operand_b = regs_read.read_data_b;
    let alu_result = spec_alu_result(sig.alu_op, operand_a, operand_b);
    let alu_flags = spec_alu_flags(sig.alu_op, operand_a, operand_b);
    // Data memory access, on top of the fetch latches.
    let mem_after = if sig.mem_read || sig.mem_write {
        let data_after = if sig.mem_write {
            fetched.data.update(spec_index(alu_result), operand_b)
        } else {
            fetched.data
        };
        MemoryView {
            data: data_after,
            read_enable: sig.mem_read,
            write_enable: sig.mem_write,
            address: alu_result,
            write_data: operand_b,
            read_data: if sig.mem_read {
                data_after[spec_index(alu_result)]
            } else {
                fetched.read_data
            },
        }
    } else {
        fetched
    };
    // Write-back to the first register field.
    let regs_after = if sig.reg_write {
        let wb = if sig.mem_read {
            mem_after.read_data
        } else {
            alu_result
        };
        let stored = spec_write(regs_read.registers, rs1, wb, true);
        RegFileView {
            registers: stored,
            addr_a: rs1,
            write_data_a: wb,
            write_enable_a: true,
            addr_b: 0,
            read_data_a: spec_read(stored, rs1, regs_read.read_data_a),
            read_data_b: 0,
        }
    } else {
        regs_read
    };
    CpuView {
        mem: mem_after,
        regs: regs_after,
        control: control_after,
        alu_result,
        alu_flags,
        cycle_count: (c.cycle_count + 1) as u64,
    }
}

/// `n` consecutive cycles of [`spec_step`].
pub open spec fn spec_run(c: CpuView, n: nat) -> CpuView
    decreases n,
{
    if n == 0 {
        c
    } else {
        spec_run(spec_step(c), (n - 1) as nat)
    }
}

/// Prototype CPU module.
pub struct Cpu {
    pub memory: Memory,
    pub registers: RegisterFile,
    pub control: ControlUnit,
    pub alu_result: Logic32,
    pub alu_flags: Flags,
    pub cycle_count: u64,
}

impl View for Cpu {
    type V = CpuView;

    open spec fn view(&self) -> CpuView {
        CpuView {
            mem: self.memory@,
            regs: self.registers@,
            control: self.control,
            alu_result: self.alu_result,
            alu_flags: self.alu_flags,
            cycle_count: self.cycle_count,
        }
    }
}

impl Cpu {
    /// The submodule arrays have their architectural sizes.
    pub open spec fn wf(&self) -> bool {
        self.memory.wf() && self.registers.wf()
    }

    pub fn new() -> (cpu: Cpu)
        ensures
            cpu.wf(),
            cpu@.mem.data == Seq::new(
                crate::proto::memory::PROTO_MEM_WORDS as nat,
                |i: int| 0u32,
            ),
            cpu@.regs.registers == Seq::new(
                crate::register_file::NUM_REGISTERS as nat,
                |i: int| 0u32,
            ),
            cpu@.control.program_counter == 0,
            cpu@.alu_result == 0,
            cpu@.alu_flags == (Flags {
                zero: false,
                carry: false,
                negative: false,
                overflow: false,
            }),
            cpu@.cycle_count == 0,
    {
        Cpu {
            memory: Memory::new(),
            registers: RegisterFile::new(),
            control: ControlUnit::new(),
            alu_result: 0,
            alu_flags: Flags::new(),
            cycle_count: 0,
        }
    }

    /// Combinational ALU stage: latch result and flags.
    fn execute_alu(&mut self, op: crate::proto::types::AluOp, a: Logic32, b: Logic32)
        ensures
            *final(self) == (Cpu {
                alu_result: spec_alu_result(op, a, b),
                alu_flags: spec_alu_flags(op, a, b),
                ..*old(self)
            }),
    {
        let (result, flags) = alu_execute(op, a, b);
        self.alu_result = result;
        self.alu_flags = flags;
    }

    /// One clock cycle: the state advances by exactly [`spec_step`].
    pub fn clock(&mut self)
        requires
            old(self).wf(),
            old(self).cycle_count < u64::MAX,
        ensures
            final(self).wf(),
            final(self)@ == spec_step(old(self)@),
    {
        self.cycle_count = self.cycle_count + 1;

        // Fetch the instruction word through the memory's read port.
        let pc = self.control.get_pc();
        self.memory.clock(true, false, pc, 0);
        let instruction_word = self.memory.get_read_data();

        // Split the word into the prototype's instruction format.
        proof {
            lemma_split_word(instruction_word);
        }
        let instruction = Instruction {
            opcode: (instruction_word & 0xFF) as u8,
            address: ((instruction_word >> 8) & 0xFFFF) as u16,
            flags: ((instruction_word >> 24) & 0x0F) as u8,
        };

        // Decode and move the PC, branching on the previous cycle's flags.
        self.control.clock(instruction, self.alu_flags);
        let ctrl = self.control.get_control_signals();

        // Read the two register fields packed into the flags byte.
        let rs1 = instruction.flags & 0x0F;
        let rs2 = (instruction.flags >> 4) & 0x0F;
        self.registers.clock(rs1, 0, false, rs2);
        let operand_a = self.registers.get_read_data_a();
        let operand_b = self.registers.get_read_data_b();

        // Execute.
        self.execute_alu(ctrl.alu_op, operand_a, operand_b);

        // Data memory access.
        if ctrl.mem_read || ctrl.mem_write {
            let addr = self.alu_result;
            self.memory.clock(ctrl.mem_read, ctrl.mem_write, addr, operand_b);
        }

        // Write back.
        if ctrl.reg_write {
            let write_data = if ctrl.mem_read {
                self.memory.get_read_data()
            } else {
                self.alu_result
            };
            self.registers.clock(rs1, write_data, true, 0);
        }
    }

    /// Run exactly `count` cycles.
    pub fn run_cycles(&mut self, count: usize)
        requires
            old(self).wf(),
            old(self).cycle_count + count <= u64::MAX,
        ensures
            final(self).wf(),
            final(self)@ == spec_run(old(self)@, count as nat),
    {
        let mut i: usize = 0;
        while i < count
            invariant
                i <= count,
                self.wf(),
                self.cycle_count == old(self).cycle_count + i,
                old(self).cycle_count + count <= u64::MAX,
                spec_run(self@, (count - i) as nat) == spec_run(old(self)@, count as nat),
            decreases count - i,
        {
            proof {
                lemma_run_unfold(self@, (count - i) as nat);
                assert(spec_step(self@).cycle_count == self.cycle_count + 1);
            }
            self.clock();
            i = i + 1;
        }
    }

    pub fn get_cycle_count(&self) -> (n: u64)
        ensures
            n == self.cycle_count,
    {
        self.cycle_count
    }

    /// Zero the PC, the cycle counter and the ALU latches; memory and
    /// registers keep their contents.
    pub fn reset(&mut self)
        ensures
            final(self).wf() == old(self).wf(),
            final(self)@.mem == old(self)@.mem,
            final(self)@.regs == old(self)@.regs,
            final(self)@.control == (ControlUnit {
                program_counter: 0,
                ..old(self)@.control
            }),
            final(self)@.alu_result == 0,
            final(self)@.alu_flags == (Flags {
                zero: false,
                carry: false,
                negative: false,
                overflow: false,
            }),
            final(self)@.cycle_count == 0,
    {
        self.control.set_pc(0);
        self.cycle_count = 0;
        self.alu_result = 0;
        self.alu_flags = Flags::new();
    }

    /// Load a program into instruction memory by word index.
    pub fn load_program(&mut self, program: &[(usize, Logic32)])
        requires
            old(self).wf(),
        ensures
            final(self).wf(),
            final(self)@.mem.data == spec_load(old(self)@.mem.data, program@),
            final(self)@.regs == old(self)@.regs,
            final(self)@.control == old(self)@.control,
            final(self)@.cycle_count == old(self)@.cycle_count,
    {
        self.memory.load_program(program);
    }
}

proof fn lemma_run_unfold(c: CpuView, n: nat)
    requires
        n > 0,
    ensures
        spec_run(c, n) == spec_run(spec_step(c), (n - 1) as nat),
{
}

proof fn lemma_split_word(w: u32)
    by (bit_vector)
    ensures
        w & 0xFF < 0x100,
        (w >> 8) & 0xFFFF < 0x1_0000,
        (w >> 24) & 0x0F < 0x10,
{
}

} // verus!
