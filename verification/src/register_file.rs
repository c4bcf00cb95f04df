//! RV32I register file: 32 general-purpose 32-bit registers with two read
//! ports and one write port.
//!
//! Register x0 is hardwired to zero: writes that target it are dropped, and
//! reads of it return zero even if the backing storage were ever disturbed.

use crate::instruction::Word;
use vstd::prelude::*;

verus! {

/// Number of general-purpose registers in RV32I.
pub const NUM_REGISTERS: usize = 32;

/// Value a read port returns for register index `addr` given storage `regs`:
/// index 0 always reads zero, an out-of-range index leaves the latch at its
/// previous value `prev`.
pub open spec fn spec_read(regs: Seq<Word>, addr: u8, prev: Word) -> Word {
    if addr == 0 {
        0
    } else if addr < regs.len() {
        regs[addr as int]
    } else {
        prev
    }
}

/// Storage after a write of `data` to register `addr`: dropped when the
/// write is disabled, targets x0, or is out of range.
pub open spec fn spec_write(regs: Seq<Word>, addr: u8, data: Word, enable: bool) -> Seq<Word> {
    if enable && addr != 0 && addr < regs.len() {
        regs.update(addr as int, data)
    } else {
        regs
    }
}

/// Mathematical state of a [`RegisterFile`]: the storage as a sequence plus
/// the latched port inputs and outputs.
pub ghost struct RegFileView {
    pub registers: Seq<Word>,
    pub addr_a: u8,
    pub write_data_a: Word,
    pub read_data_a: Word,
    pub write_enable_a: bool,
    pub addr_b: u8,
    pub read_data_b: Word,
}

/// Register file with one read/write port (A) and one read-only port (B).
/// Reads are combinational; the write commits on the clock edge.
pub struct RegisterFile {
    pub registers: Vec<Word>,
    pub addr_a: u8,
    pub write_data_a: Word,
    pub read_data_a: Word,
    pub write_enable_a: bool,
    pub addr_b: u8,
    pub read_data_b: Word,
}

impl View for RegisterFile {
    type V = RegFileView;

    open spec fn view(&self) -> RegFileView {
        RegFileView {
            registers: self.registers@,
            addr_a: self.addr_a,
            write_data_a: self.write_data_a,
            read_data_a: self.read_data_a,
            write_enable_a: self.write_enable_a,
            addr_b: self.addr_b,
            read_data_b: self.read_data_b,
        }
    }
}

impl RegisterFile {
    /// The backing storage holds exactly one word per register.
    pub open spec fn wf(&self) -> bool {
        self.registers.len() == NUM_REGISTERS
    }

    pub fn new() -> (rf: RegisterFile)
        ensures
            rf.wf(),
            rf.registers@ == Seq::new(NUM_REGISTERS as nat, |i: int| 0u32),
            rf.addr_a == 0,
            rf.write_data_a == 0,
            rf.read_data_a == 0,
            rf.write_enable_a == false,
            rf.addr_b == 0,
            rf.read_data_b == 0,
    {
        let registers = make_zero_words(NUM_REGISTERS);
        RegisterFile {
            registers,
            addr_a: 0,
            write_data_a: 0,
            read_data_a: 0,
            write_enable_a: false,
            addr_b: 0,
            read_data_b: 0,
        }
    }

    /// Combinational read of both ports; x0 always reads as zero.
    fn combinational_read(&mut self)
        ensures
            final(self).registers == old(self).registers,
            final(self).addr_a == old(self).addr_a,
            final(self).addr_b == old(self).addr_b,
            final(self).write_data_a == old(self).write_data_a,
            final(self).write_enable_a == old(self).write_enable_a,
            final(self).read_data_a == spec_read(
                old(self).registers@,
                old(self).addr_a,
                old(self).read_data_a,
            ),
            final(self).read_data_b == spec_read(
                old(self).registers@,
                old(self).addr_b,
                old(self).read_data_b,
            ),
    {
        if self.addr_a == 0 {
            self.read_data_a = 0;
        } else if (self.addr_a as usize) < self.registers.len() {
            self.read_data_a = self.registers[self.addr_a as usize];
        }
        if self.addr_b == 0 {
            self.read_data_b = 0;
        } else if (self.addr_b as usize) < self.registers.len() {
            self.read_data_b = self.registers[self.addr_b as usize];
        }
    }

    /// Clock edge: latch the port inputs, commit at most one write (never to
    /// x0), then update both read latches from the new storage.
    pub fn clock(&mut self, addr_a: u8, write_data_a: Word, write_enable_a: bool, addr_b: u8)
        ensures
            final(self).wf() == old(self).wf(),
            final(self).registers@ == spec_write(
                old(self).registers@,
                addr_a,
                write_data_a,
                write_enable_a,
            ),
            final(self).read_data_a == spec_read(
                final(self).registers@,
                addr_a,
                old(self).read_data_a,
            ),
            final(self).read_data_b == spec_read(
                final(self).registers@,
                addr_b,
                old(self).read_data_b,
            ),
            final(self).addr_a == addr_a,
            final(self).addr_b == addr_b,
            final(self).write_data_a == write_data_a,
            final(self).write_enable_a == write_enable_a,
    {
        self.addr_a = addr_a;
        self.write_data_a = write_data_a;
        self.write_enable_a = write_enable_a;
        self.addr_b = addr_b;
        if self.write_enable_a && self.addr_a != 0 && (self.addr_a as usize)
            < self.registers.len() {
            let idx = self.addr_a as usize;
            self.registers.set(idx, self.write_data_a);
        }
        self.combinational_read();
    }

    pub fn get_read_data_a(&self) -> (r: Word)
        ensures
            r == self.read_data_a,
    {
        self.read_data_a
    }

    pub fn get_read_data_b(&self) -> (r: Word)
        ensures
            r == self.read_data_b,
    {
        self.read_data_b
    }

    /// Snapshot of one register as a read of port A would see it: x0 reads
    /// zero, any other in-range index its stored word.
    pub fn peek(&self, index: u8) -> (r: Word)
        requires
            self.wf(),
            index < NUM_REGISTERS,
        ensures
            r == spec_read(self.registers@, index, 0),
    {
        if index == 0 {
            0
        } else {
            self.registers[index as usize]
        }
    }

    /// Zero every register (x0 included: it is zero in any case).
    pub fn reset(&mut self)
        ensures
            final(self).registers@ == Seq::new(NUM_REGISTERS as nat, |i: int| 0u32),
            final(self).wf(),
            final(self).read_data_a == old(self).read_data_a,
            final(self).read_data_b == old(self).read_data_b,
            final(self).addr_a == old(self).addr_a,
            final(self).addr_b == old(self).addr_b,
            final(self).write_data_a == old(self).write_data_a,
            final(self).write_enable_a == old(self).write_enable_a,
    {
        self.registers = make_zero_words(NUM_REGISTERS);
    }
}

/// A vector of `n` zero words.
fn make_zero_words(n: usize) -> (v: Vec<Word>)
    ensures
        v@ == Seq::new(n as nat, |i: int| 0u32),
{
    let mut v: Vec<Word> = Vec::new();
    let mut i: usize = 0;
    while i < n
        invariant
            i <= n,
            v@ == Seq::new(i as nat, |j: int| 0u32),
        decreases n - i,
    {
        v.push(0);
        proof {
            assert(v@ =~= Seq::new((i + 1) as nat, |j: int| 0u32));
        }
        i = i + 1;
    }
    v
}

/// The x0 invariant: whatever sequence of writes a register file has seen,
/// reading register 0 yields zero.  A write that targets x0 leaves the
/// storage unchanged, and a read of x0 never consults the storage at all.
pub proof fn lemma_x0_invariant(regs: Seq<Word>, data: Word, enable: bool, prev: Word)
    ensures
        spec_write(regs, 0, data, enable) == regs,
        spec_read(regs, 0, prev) == 0,
{
}

} // verus!
