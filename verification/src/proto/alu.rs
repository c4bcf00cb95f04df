//! The standalone accumulator ALU of the prototype: a four-state
//! fetch/execute/write-back machine around a single accumulator, with a
//! small private register bank.

use crate::alu::Flags;
use crate::proto::types::AluOp;
use crate::proto::types::Instruction;
use crate::proto::types::Logic32;
use crate::proto::types::alu_execute;
use crate::proto::types::op_of_byte;
use crate::proto::types::spec_alu_flags;
use crate::proto::types::spec_alu_result;
use crate::proto::types::spec_op_of_byte;
use vstd::prelude::*;

verus! {

/// Number of words in the prototype ALU's register bank.
pub const ALU_REGISTERS: usize = 16;

/// The explicit processing states of the prototype's state machine.
#[derive(Clone, Copy, Debug, PartialEq, Eq, Structural)]
pub enum AluState {
    Idle,
    Fetch,
    Execute,
    WriteBack,
}

/// Mathematical state of the accumulator [`Alu`].
pub ghost struct AluView {
    pub accumulator: Logic32,
    pub result: Logic32,
    pub flags: Flags,
    pub state: AluState,
    pub registers: Seq<Logic32>,
}

/// Accumulator ALU module: `clock` advances the Idle → Fetch → Execute →
/// WriteBack cycle one state per call.
pub struct Alu {
    pub accumulator: Logic32,
    pub result: Logic32,
    pub flags: Flags,
    pub state: AluState,
    pub registers: Vec<Logic32>,
}

impl View for Alu {
    type V = AluView;

    open spec fn view(&self) -> AluView {
        AluView {
            accumulator: self.accumulator,
            result: self.result,
            flags: self.flags,
            state: self.state,
            registers: self.registers@,
        }
    }
}

/// State after the execute step: the ALU applies the opcode byte to the
/// accumulator and the instruction's address field, latching result and
/// flags.
pub open spec fn spec_execute(v: AluView, instruction: Instruction) -> AluView {
    let op = spec_op_of_byte(instruction.opcode);
    let a = v.accumulator;
    let b = instruction.address as Logic32;
    AluView {
        result: spec_alu_result(op, a, b),
        flags: spec_alu_flags(op, a, b),
        ..v
    }
}

/// One clock edge of the state machine: Idle latches nothing, Fetch waits,
/// Execute computes, WriteBack commits the result into the accumulator.
pub open spec fn spec_clock(v: AluView, instruction: Instruction) -> AluView {
    match v.state {
        AluState::Idle => AluView { state: AluState::Fetch, ..v },
        AluState::Fetch => AluView { state: AluState::Execute, ..v },
        AluState::Execute => AluView {
            state: AluState::WriteBack,
            ..spec_execute(v, instruction)
        },
        AluState::WriteBack => AluView { accumulator: v.result, state: AluState::Idle, ..v },
    }
}

impl Alu {
    /// The register bank holds exactly [`ALU_REGISTERS`] words.
    pub open spec fn wf(&self) -> bool {
        self.registers.len() == ALU_REGISTERS
    }

    pub fn new() -> (alu: Alu)
        ensures
            alu.wf(),
            alu@.accumulator == 0,
            alu@.result == 0,
            alu@.flags == (Flags { zero: false, carry: false, negative: false, overflow: false }),
            alu@.state == AluState::Idle,
            alu@.registers == Seq::new(ALU_REGISTERS as nat, |i: int| 0u32),
    {
        Alu {
            accumulator: 0,
            result: 0,
            flags: Flags::new(),
            state: AluState::Idle,
            registers: zero_bank(ALU_REGISTERS),
        }
    }

    /// Return every register and latch to its power-on value.
    pub fn reset(&mut self)
        ensures
            final(self).wf(),
            final(self)@.accumulator == 0,
            final(self)@.result == 0,
            final(self)@.flags == (Flags {
                zero: false,
                carry: false,
                negative: false,
                overflow: false,
            }),
            final(self)@.state == AluState::Idle,
            final(self)@.registers == Seq::new(ALU_REGISTERS as nat, |i: int| 0u32),
    {
        self.accumulator = 0;
        self.result = 0;
        self.flags = Flags::new();
        self.state = AluState::Idle;
        self.registers = zero_bank(ALU_REGISTERS);
    }

    /// One clock edge: advance the state machine by [`spec_clock`].
    pub fn clock(&mut self, instruction: Instruction)
        ensures
            final(self)@ == spec_clock(old(self)@, instruction),
            final(self).wf() == old(self).wf(),
    {
        match self.state {
            AluState::Idle => {
                self.state = AluState::Fetch;
            },
            AluState::Fetch => {
                self.state = AluState::Execute;
            },
            AluState::Execute => {
                self.execute(instruction);
                self.state = AluState::WriteBack;
            },
            AluState::WriteBack => {
                self.accumulator = self.result;
                self.state = AluState::Idle;
            },
        }
    }

    /// Combinational execute: decode the opcode byte safely and apply the
    /// operation to the accumulator and the address field.
    fn execute(&mut self, instruction: Instruction)
        ensures
            final(self)@ == spec_execute(old(self)@, instruction),
    {
        let op = op_of_byte(instruction.opcode);
        let a = self.accumulator;
        let b = instruction.address as Logic32;
        let (result, flags) = alu_execute(op, a, b);
        self.result = result;
        self.flags = flags;
    }

    pub fn get_result(&self) -> (r: Logic32)
        ensures
            r == self.result,
    {
        self.result
    }

    pub fn get_flags(&self) -> (f: Flags)
        ensures
            f == self.flags,
    {
        self.flags
    }

    pub fn get_state(&self) -> (s: AluState)
        ensures
            s == self.state,
    {
        self.state
    }

    /// Read one register of the bank; an out-of-range index reads zero.
    pub fn read_register(&self, addr: u8) -> (r: Logic32)
        ensures
            r == if addr < self@.registers.len() {
                self@.registers[addr as int]
            } else {
                0
            },
    {
        if (addr as usize) < self.registers.len() {
            self.registers[addr as usize]
        } else {
            0
        }
    }

    /// Write one register of the bank; an out-of-range index writes
    /// nothing.
    pub fn write_register(&mut self, addr: u8, value: Logic32)
        ensures
            final(self)@ == (AluView {
                registers: if addr < old(self)@.registers.len() {
                    old(self)@.registers.update(addr as int, value)
                } else {
                    old(self)@.registers
                },
                ..old(self)@
            }),
    {
        if (addr as usize) < self.registers.len() {
            let idx = addr as usize;
            self.registers.set(idx, value);
        }
    }
}

/// A register bank of `n` zero words.
fn zero_bank(n: usize) -> (v: Vec<Logic32>)
    ensures
        v@ == Seq::new(n as nat, |i: int| 0u32),
{
    let mut v: Vec<Logic32> = Vec::new();
    let mut i: usize = 0;
    while i < n
        invariant
            i <= n,
            v@ == Seq::new(i as nat, |j: int| 0u32),
        decreases n - i,
    {
        v.push(0);
        proof {
            assert(v@ =~= Seq::new((i + 1) as nat, |j: int| 0u32));
        }
        i = i + 1;
    }
    v
}

} // verus!
