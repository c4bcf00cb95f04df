//! Prototype control unit: byte-opcode decode table and a word-granular
//! program counter updated on the same clock edge.

use crate::alu::Flags;
use crate::proto::types::AluOp;
use crate::proto::types::Instruction;
use crate::proto::types::Logic32;
use vstd::prelude::*;

verus! {

/// Decoded intent of one prototype instruction.
#[derive(Clone, Copy, Debug, PartialEq, Eq, Structural)]
pub struct ControlSignals {
    pub alu_op: AluOp,
    pub reg_write: bool,
    pub mem_read: bool,
    pub mem_write: bool,
    pub branch: bool,
    pub jump: bool,
}

/// The inert prototype signal record.
pub open spec fn spec_signals_default() -> ControlSignals {
    ControlSignals {
        alu_op: AluOp::Nop,
        reg_write: false,
        mem_read: false,
        mem_write: false,
        branch: false,
        jump: false,
    }
}

/// The prototype decode table: arithmetic opcodes write back, load/store
/// opcodes touch memory, and two transfer opcodes branch on the zero flag
/// or jump unconditionally.  An unknown opcode is a no-op.
pub open spec fn spec_decode(opcode: u8) -> ControlSignals {
    if opcode == 0x00 {
        spec_signals_default()
    } else if opcode == 0x01 {
        ControlSignals { alu_op: AluOp::Add, reg_write: true, ..spec_signals_default() }
    } else if opcode == 0x02 {
        ControlSignals { alu_op: AluOp::Sub, reg_write: true, ..spec_signals_default() }
    } else if opcode == 0x03 {
        ControlSignals { alu_op: AluOp::And, reg_write: true, ..spec_signals_default() }
    } else if opcode == 0x04 {
        ControlSignals { alu_op: AluOp::Or, reg_write: true, ..spec_signals_default() }
    } else if opcode == 0x05 {
        ControlSignals { alu_op: AluOp::Xor, reg_write: true, ..spec_signals_default() }
    } else if opcode == 0x10 {
        ControlSignals {
            alu_op: AluOp::Add,
            mem_read: true,
            reg_write: true,
            ..spec_signals_default()
        }
    } else if opcode == 0x11 {
        ControlSignals { alu_op: AluOp::Add, mem_write: true, ..spec_signals_default() }
    } else if opcode == 0x20 {
        ControlSignals { alu_op: AluOp::Sub, branch: true, ..spec_signals_default() }
    } else if opcode == 0x21 {
        ControlSignals { jump: true, ..spec_signals_default() }
    } else {
        spec_signals_default()
    }
}

/// Program counter after one prototype cycle: a jump, or a branch with the
/// zero flag set, lands on the instruction's address field; anything else
/// advances to the next word, wrapping at the counter's width.
pub open spec fn spec_next_pc(
    signals: ControlSignals,
    flags: Flags,
    pc: Logic32,
    address: u16,
) -> Logic32 {
    if signals.jump {
        address as Logic32
    } else if signals.branch && flags.zero {
        address as Logic32
    } else {
        ((pc + 1) % 0x1_0000_0000) as Logic32
    }
}

/// Prototype instruction decoder with the program counter.
pub struct ControlUnit {
    pub current_instruction: Instruction,
    pub control_signals: ControlSignals,
    pub program_counter: Logic32,
}

impl ControlUnit {
    pub fn new() -> (cu: ControlUnit)
        ensures
            cu.current_instruction == (Instruction { opcode: 0, address: 0, flags: 0 }),
            cu.control_signals == spec_signals_default(),
            cu.program_counter == 0,
    {
        ControlUnit {
            current_instruction: Instruction { opcode: 0, address: 0, flags: 0 },
            control_signals: signals_default(),
            program_counter: 0,
        }
    }

    /// Combinational decode of the latched instruction.
    fn decode(&mut self)
        ensures
            *final(self) == (ControlUnit {
                control_signals: spec_decode(old(self).current_instruction.opcode),
                ..*old(self)
            }),
    {
        let opcode = self.current_instruction.opcode;
        let mut signals = signals_default();
        if opcode == 0x01 {
            signals.alu_op = AluOp::Add;
            signals.reg_write = true;
        } else if opcode == 0x02 {
            signals.alu_op = AluOp::Sub;
            signals.reg_write = true;
        } else if opcode == 0x03 {
            signals.alu_op = AluOp::And;
            signals.reg_write = true;
        } else if opcode == 0x04 {
            signals.alu_op = AluOp::Or;
            signals.reg_write = true;
        } else if opcode == 0x05 {
            signals.alu_op = AluOp::Xor;
            signals.reg_write = true;
        } else if opcode == 0x10 {
            signals.alu_op = AluOp::Add;
            signals.mem_read = true;
            signals.reg_write = true;
        } else if opcode == 0x11 {
            signals.alu_op = AluOp::Add;
            signals.mem_write = true;
        } else if opcode == 0x20 {
            signals.alu_op = AluOp::Sub;
            signals.branch = true;
        } else if opcode == 0x21 {
            signals.jump = true;
        }
        self.control_signals = signals;
    }

    /// Clock edge: latch and decode the instruction, then move the program
    /// counter by [`spec_next_pc`] using the caller's current flags.
    pub fn clock(&mut self, instruction: Instruction, flags: Flags)
        ensures
            *final(self) == (ControlUnit {
                current_instruction: instruction,
                control_signals: spec_decode(instruction.opcode),
                program_counter: spec_next_pc(
                    spec_decode(instruction.opcode),
                    flags,
                    old(self).program_counter,
                    instruction.address,
                ),
            }),
    {
        self.current_instruction = instruction;
        self.decode();
        if self.control_signals.jump {
            self.program_counter = self.current_instruction.address as Logic32;
        } else if self.control_signals.branch && flags.zero {
            self.program_counter = self.current_instruction.address as Logic32;
        } else {
            self.program_counter = self.program_counter.wrapping_add(1);
        }
    }

    pub fn get_control_signals(&self) -> (s: ControlSignals)
        ensures
            s == self.control_signals,
    {
        self.control_signals
    }

    pub fn get_pc(&self) -> (pc: Logic32)
        ensures
            pc == self.program_counter,
    {
        self.program_counter
    }

    pub fn set_pc(&mut self, pc: Logic32)
        ensures
            *final(self) == (ControlUnit { program_counter: pc, ..*old(self) }),
    {
        self.program_counter = pc;
    }
}

/// Exec counterpart of [`spec_signals_default`].
fn signals_default() -> (s: ControlSignals)
    ensures
        s == spec_signals_default(),
{
    ControlSignals {
        alu_op: AluOp::Nop,
        reg_write: false,
        mem_read: false,
        mem_write: false,
        branch: false,
        jump: false,
    }
}

} // verus!
