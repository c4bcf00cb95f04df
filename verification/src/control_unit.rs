//! Control unit: decodes an RV32I instruction into control signals and owns
//! the program counter.
//!
//! Dispatch is on the opcode, refined by funct3/funct7 for the two
//! ALU-family opcodes.  An unrecognized opcode decodes to the inert default
//! (ALU pass-through, no side-effecting signals): an implicit NOP, never a
//! fault.

use crate::alu::AluOp;
use crate::instruction::Addr;
use crate::instruction::Instruction;
use vstd::prelude::*;

verus! {

/// The decoded intent of one instruction: which ALU operation runs, where
/// its second operand comes from, whether memory is read or written, where
/// the write-back value comes from, and whether control transfers.
#[derive(Clone, Copy, Debug, PartialEq, Eq, Structural)]
pub struct ControlSignals {
    pub alu_op: AluOp,
    pub alu_src: bool,
    pub mem_read: bool,
    pub mem_write: bool,
    pub mem_to_reg: bool,
    pub reg_write: bool,
    pub branch: bool,
    pub jump: bool,
}

/// The inert signal record: ALU pass-through and no side effects.
pub open spec fn spec_signals_default() -> ControlSignals {
    ControlSignals {
        alu_op: AluOp::PassA,
        alu_src: false,
        mem_read: false,
        mem_write: false,
        mem_to_reg: false,
        reg_write: false,
        branch: false,
        jump: false,
    }
}

impl ControlSignals {
    pub fn new() -> (s: ControlSignals)
        ensures
            s == spec_signals_default(),
    {
        ControlSignals {
            alu_op: AluOp::PassA,
            alu_src: false,
            mem_read: false,
            mem_write: false,
            mem_to_reg: false,
            reg_write: false,
            branch: false,
            jump: false,
        }
    }
}

/// ALU operation for an OP-IMM instruction, selected by funct3 and, for
/// right shifts, bit 5 of funct7.
pub open spec fn spec_op_imm_alu_op(funct3: u8, funct7: u8) -> AluOp {
    match funct3 {
        0b000 => AluOp::Add,
        0b010 => AluOp::Slt,
        0b011 => AluOp::Sltu,
        0b100 => AluOp::Xor,
        0b110 => AluOp::Or,
        0b111 => AluOp::And,
        0b001 => AluOp::Sll,
        0b101 => if funct7 & 0x20 != 0 {
            AluOp::Sra
        } else {
            AluOp::Srl
        },
        _ => AluOp::Add,
    }
}

/// ALU operation for an OP (register-register) instruction, selected by
/// funct3 and, for Sub and the right shifts, bit 5 of funct7.
pub open spec fn spec_op_alu_op(funct3: u8, funct7: u8) -> AluOp {
    match funct3 {
        0b000 => if funct7 & 0x20 != 0 {
            AluOp::Sub
        } else {
            AluOp::Add
        },
        0b001 => AluOp::Sll,
        0b010 => AluOp::Slt,
        0b011 => AluOp::Sltu,
        0b100 => AluOp::Xor,
        0b101 => if funct7 & 0x20 != 0 {
            AluOp::Sra
        } else {
            AluOp::Srl
        },
        0b110 => AluOp::Or,
        0b111 => AluOp::And,
        _ => AluOp::Add,
    }
}

/// Control signals decoded from instruction word `w`: the opcode-family
/// table of the RV32I datapath.
pub open spec fn spec_decode(w: u32) -> ControlSignals {
    let opcode = w & 0x7F;
    let funct3 = ((w >> 12) & 0x7) as u8;
    let funct7 = (w >> 25) as u8;
    if opcode == 0b0110111 {
        // LUI: pass the immediate through the ALU.
        ControlSignals { alu_op: AluOp::PassB, alu_src: true, reg_write: true, ..spec_signals_default() }
    } else if opcode == 0b0010111 {
        // AUIPC: pc + immediate.
        ControlSignals { alu_op: AluOp::Add, alu_src: true, reg_write: true, ..spec_signals_default() }
    } else if opcode == 0b1101111 {
        // JAL: link and jump.
        ControlSignals { alu_op: AluOp::Add, jump: true, reg_write: true, ..spec_signals_default() }
    } else if opcode == 0b1100111 {
        // JALR: link and jump via register.
        ControlSignals { alu_op: AluOp::Add, alu_src: true, jump: true, reg_write: true, ..spec_signals_default() }
    } else if opcode == 0b1100011 {
        // Branches compare via subtraction.
        ControlSignals { alu_op: AluOp::Sub, branch: true, ..spec_signals_default() }
    } else if opcode == 0b0000011 {
        // Loads: address calculation, memory to register.
        ControlSignals {
            alu_op: AluOp::Add,
            alu_src: true,
            mem_read: true,
            mem_to_reg: true,
            reg_write: true,
            ..spec_signals_default()
        }
    } else if opcode == 0b0100011 {
        // Stores: address calculation, register to memory.
        ControlSignals { alu_op: AluOp::Add, alu_src: true, mem_write: true, ..spec_signals_default() }
    } else if opcode == 0b0010011 {
        // OP-IMM family.
        ControlSignals {
            alu_op: spec_op_imm_alu_op(funct3, funct7),
            alu_src: true,
            reg_write: true,
            ..spec_signals_default()
        }
    } else if opcode == 0b0110011 {
        // OP (register-register) family.
        ControlSignals { alu_op: spec_op_alu_op(funct3, funct7), reg_write: true, ..spec_signals_default() }
    } else {
        // SYSTEM and unrecognized opcodes: an implicit NOP.
        spec_signals_default()
    }
}

/// Program counter after one cycle: a taken control transfer lands on the
/// jump target forced to a 4-byte boundary; otherwise the PC advances by
/// one 4-byte instruction, wrapping at the top of the address space.
pub open spec fn spec_next_pc(
    signals: ControlSignals,
    pc: Addr,
    branch_taken: bool,
    jump_target: Addr,
) -> Addr {
    if signals.jump || (signals.branch && branch_taken) {
        jump_target & !0x3u32
    } else {
        ((pc + 4) % 0x1_0000_0000) as u32
    }
}

/// Instruction decoder and program-counter logic.
pub struct ControlUnit {
    pub current_instruction: Instruction,
    pub control_signals: ControlSignals,
    pub program_counter: Addr,
}

impl ControlUnit {
    pub fn new() -> (cu: ControlUnit)
        ensures
            cu.current_instruction.raw == 0,
            cu.control_signals == spec_signals_default(),
            cu.program_counter == 0,
    {
        ControlUnit {
            current_instruction: Instruction::new(0),
            control_signals: ControlSignals::new(),
            program_counter: 0,
        }
    }

    /// Combinational decode of the latched instruction.
    fn decode(&mut self)
        ensures
            *final(self) == (ControlUnit {
                control_signals: spec_decode(old(self).current_instruction.raw),
                ..*old(self)
            }),
    {
        let inst = self.current_instruction;
        let opcode = inst.opcode();
        let funct3 = inst.funct3();
        let funct7 = inst.funct7();
        let mut signals = ControlSignals::new();
        if opcode == 0b0110111 {
            signals.alu_op = AluOp::PassB;
            signals.alu_src = true;
            signals.reg_write = true;
        } else if opcode == 0b0010111 {
            signals.alu_op = AluOp::Add;
            signals.alu_src = true;
            signals.reg_write = true;
        } else if opcode == 0b1101111 {
            signals.alu_op = AluOp::Add;
            signals.jump = true;
            signals.reg_write = true;
        } else if opcode == 0b1100111 {
            signals.alu_op = AluOp::Add;
            signals.alu_src = true;
            signals.jump = true;
            signals.reg_write = true;
        } else if opcode == 0b1100011 {
            signals.alu_op = AluOp::Sub;
            signals.branch = true;
        } else if opcode == 0b0000011 {
            signals.alu_op = AluOp::Add;
            signals.alu_src = true;
            signals.mem_read = true;
            signals.mem_to_reg = true;
            signals.reg_write = true;
        } else if opcode == 0b0100011 {
            signals.alu_op = AluOp::Add;
            signals.alu_src = true;
            signals.mem_write = true;
        } else if opcode == 0b0010011 {
            signals.alu_src = true;
            signals.reg_write = true;
            signals.alu_op = if funct3 == 0b000 {
                AluOp::Add
            } else if funct3 == 0b010 {
                AluOp::Slt
            } else if funct3 == 0b011 {
                AluOp::Sltu
            } else if funct3 == 0b100 {
                AluOp::Xor
            } else if funct3 == 0b110 {
                AluOp::Or
            } else if funct3 == 0b111 {
                AluOp::And
            } else if funct3 == 0b001 {
                AluOp::Sll
            } else {
                if funct7 & 0x20 != 0 {
                    AluOp::Sra
                } else {
                    AluOp::Srl
                }
            };
        } else if opcode == 0b0110011 {
            signals.reg_write = true;
            signals.alu_op = if funct3 == 0b000 {
                if funct7 & 0x20 != 0 {
                    AluOp::Sub
                } else {
                    AluOp::Add
                }
            } else if funct3 == 0b001 {
                AluOp::Sll
            } else if funct3 == 0b010 {
                AluOp::Slt
            } else if funct3 == 0b011 {
                AluOp::Sltu
            } else if funct3 == 0b100 {
                AluOp::Xor
            } else if funct3 == 0b101 {
                if funct7 & 0x20 != 0 {
                    AluOp::Sra
                } else {
                    AluOp::Srl
                }
            } else if funct3 == 0b110 {
                AluOp::Or
            } else {
                AluOp::And
            };
        } else if opcode == 0b1110011 {
            signals.alu_op = AluOp::PassA;
        } else {
            signals.alu_op = AluOp::PassA;
        }
        self.control_signals = signals;
    }

    /// Clock edge: latch the fetched instruction and decode it.
    pub fn clock(&mut self, instruction: Instruction)
        ensures
            *final(self) == (ControlUnit {
                current_instruction: instruction,
                control_signals: spec_decode(instruction.raw),
                ..*old(self)
            }),
    {
        self.current_instruction = instruction;
        self.decode();
    }

    /// Advance the PC: a taken jump or branch lands on the target masked to
    /// a 4-byte boundary, anything else on the next instruction.
    pub fn update_pc(&mut self, branch_taken: bool, jump_target: Addr)
        ensures
            *final(self) == (ControlUnit {
                program_counter: spec_next_pc(
                    old(self).control_signals,
                    old(self).program_counter,
                    branch_taken,
                    jump_target,
                ),
                ..*old(self)
            }),
    {
        if self.control_signals.jump || (self.control_signals.branch && branch_taken) {
            self.program_counter = jump_target & !0x3u32;
        } else {
            self.program_counter = self.program_counter.wrapping_add(4);
        }
    }

    pub fn get_control_signals(&self) -> (s: ControlSignals)
        ensures
            s == self.control_signals,
    {
        self.control_signals
    }

    pub fn get_pc(&self) -> (pc: Addr)
        ensures
            pc == self.program_counter,
    {
        self.program_counter
    }

    /// Set the PC, forced to a 4-byte instruction boundary.
    pub fn set_pc(&mut self, pc: Addr)
        ensures
            *final(self) == (ControlUnit { program_counter: pc & !0x3u32, ..*old(self) }),
    {
        self.program_counter = pc & !0x3u32;
    }

    /// Zero the PC and return the signals to the inert default.
    pub fn reset(&mut self)
        ensures
            *final(self) == (ControlUnit {
                program_counter: 0,
                control_signals: spec_signals_default(),
                ..*old(self)
            }),
    {
        self.program_counter = 0;
        self.control_signals = ControlSignals::new();
    }
}

} // verus!
