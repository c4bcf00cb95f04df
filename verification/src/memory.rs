//! Word-addressed memory with masked, alignment-checked stores.
//!
//! The array holds [`MEM_WORDS`] 32-bit words; a byte address maps to word
//! index `(addr / 4) % MEM_WORDS`, so out-of-range addresses wrap rather
//! than fault.  Stores are masked to a byte, halfword or word; a misaligned
//! halfword or word store is dropped silently, leaving memory unchanged.

use crate::instruction::Addr;
use crate::instruction::Word;
use vstd::prelude::*;

verus! {

/// Number of 32-bit words of addressable memory (4 KiB).
pub const MEM_WORDS: usize = 1024;

/// Write mask selecting a single byte store.
pub const MASK_BYTE: u8 = 0b0001;

/// Write mask selecting a halfword store.
pub const MASK_HALF: u8 = 0b0011;

/// Write mask selecting a full word store.
pub const MASK_WORD: u8 = 0b1111;

/// Word index a byte address selects: wraparound, never a fault.
pub open spec fn spec_word_index(addr: Addr) -> int {
    ((addr / 4) % (MEM_WORDS as u32)) as int
}

/// Word fetched at byte address `addr`.
pub open spec fn spec_fetch(data: Seq<Word>, addr: Addr) -> Word {
    data[spec_word_index(addr)]
}

/// The stored word after a masked store of `data` into `cur` at byte address
/// `addr`: a byte store replaces one byte, an even-aligned halfword store two
/// bytes, a 4-aligned word store all four.  A misaligned halfword or word
/// store, or an unknown mask, leaves the word unchanged.
pub open spec fn spec_store_word(cur: Word, addr: Addr, data: Word, mask: u8) -> Word {
    let sh = ((addr % 4) * 8) as u32;
    if mask == MASK_BYTE {
        (cur & !(0xFFu32 << sh)) | ((data & 0xFF) << sh)
    } else if mask == MASK_HALF {
        if addr % 2 == 0 {
            (cur & !(0xFFFFu32 << sh)) | ((data & 0xFFFF) << sh)
        } else {
            cur
        }
    } else if mask == MASK_WORD {
        if addr % 4 == 0 {
            data
        } else {
            cur
        }
    } else {
        cur
    }
}

/// Memory contents after one masked store at byte address `addr`.
pub open spec fn spec_write_mem(data: Seq<Word>, addr: Addr, value: Word, mask: u8) -> Seq<Word> {
    data.update(spec_word_index(addr), spec_store_word(data[spec_word_index(addr)], addr, value, mask))
}

/// Memory contents after bulk-loading `entries`, in order: each 4-byte
/// aligned, in-range entry stores a whole word; every other entry is skipped.
pub open spec fn spec_load_program(data: Seq<Word>, entries: Seq<(Addr, Word)>) -> Seq<Word>
    decreases entries.len(),
{
    if entries.len() == 0 {
        data
    } else {
        let (addr, word) = entries[0];
        let next = if addr % 4 == 0 && addr / 4 < MEM_WORDS as u32 {
            data.update((addr / 4) as int, word)
        } else {
            data
        };
        spec_load_program(next, entries.skip(1))
    }
}

/// Mathematical state of a [`Memory`]: the word array as a sequence plus
/// the latched buses.
pub ghost struct MemoryView {
    pub data: Seq<Word>,
    pub read_enable: bool,
    pub write_enable: bool,
    pub address: Addr,
    pub write_data: Word,
    pub read_data: Word,
    pub write_mask: u8,
}

/// Fixed-size word memory with latched read data and a write mask for
/// partial-word stores.
pub struct Memory {
    pub data: Vec<Word>,
    pub read_enable: bool,
    pub write_enable: bool,
    pub address: Addr,
    pub write_data: Word,
    pub read_data: Word,
    pub write_mask: u8,
}

impl View for Memory {
    type V = MemoryView;

    open spec fn view(&self) -> MemoryView {
        MemoryView {
            data: self.data@,
            read_enable: self.read_enable,
            write_enable: self.write_enable,
            address: self.address,
            write_data: self.write_data,
            read_data: self.read_data,
            write_mask: self.write_mask,
        }
    }
}

impl Memory {
    /// The array holds exactly [`MEM_WORDS`] words.
    pub open spec fn wf(&self) -> bool {
        self.data.len() == MEM_WORDS
    }

    pub fn new() -> (m: Memory)
        ensures
            m.wf(),
            m.data@ == Seq::new(MEM_WORDS as nat, |i: int| 0u32),
            m.read_enable == false,
            m.write_enable == false,
            m.address == 0,
            m.write_data == 0,
            m.read_data == 0,
            m.write_mask == MASK_WORD,
    {
        Memory {
            data: make_zero_words(MEM_WORDS),
            read_enable: false,
            write_enable: false,
            address: 0,
            write_data: 0,
            read_data: 0,
            write_mask: MASK_WORD,
        }
    }

    /// Combinational read: latch the word the byte address selects.
    fn combinational_read(&mut self, addr: Addr)
        requires
            old(self).wf(),
        ensures
            *final(self) == (Memory { read_data: spec_fetch(old(self).data@, addr), ..*old(self) }),
    {
        proof {
            lemma_addr_ops(addr);
        }
        let word_addr = ((addr >> 2) as usize) % self.data.len();
        self.read_data = self.data[word_addr];
    }

    /// Sequential write: commit one masked store, dropping it when the mask
    /// requires an alignment the address lacks.
    fn sequential_write(&mut self, addr: Addr, data: Word, mask: u8)
        requires
            old(self).wf(),
        ensures
            final(self).data@ == spec_write_mem(old(self).data@, addr, data, mask),
            final(self).read_enable == old(self).read_enable,
            final(self).write_enable == old(self).write_enable,
            final(self).address == old(self).address,
            final(self).write_data == old(self).write_data,
            final(self).read_data == old(self).read_data,
            final(self).write_mask == old(self).write_mask,
            final(self).wf(),
    {
        proof {
            lemma_addr_ops(addr);
        }
        let word_addr = ((addr >> 2) as usize) % self.data.len();
        let byte_offset = (addr & 0x3) as u32;
        let shift: u32 = byte_offset * 8;
        let mut current = self.data[word_addr];
        if mask == MASK_BYTE {
            current = (current & !(0xFFu32 << shift)) | ((data & 0xFF) << shift);
        } else if mask == MASK_HALF {
            if addr & 0x1 == 0 {
                current = (current & !(0xFFFFu32 << shift)) | ((data & 0xFFFF) << shift);
            }
        } else if mask == MASK_WORD {
            if addr & 0x3 == 0 {
                current = data;
            }
        }
        self.data.set(word_addr, current);
    }

    /// Clock edge: latch the buses, commit a store when write-enabled, then
    /// latch read data when read-enabled.
    pub fn clock(&mut self, read_en: bool, write_en: bool, addr: Addr, data: Word)
        requires
            old(self).wf(),
        ensures
            final(self).wf(),
            final(self).data@ == if write_en {
                spec_write_mem(old(self).data@, addr, data, old(self).write_mask)
            } else {
                old(self).data@
            },
            final(self).read_data == if read_en {
                spec_fetch(final(self).data@, addr)
            } else {
                old(self).read_data
            },
            final(self).read_enable == read_en,
            final(self).write_enable == write_en,
            final(self).address == addr,
            final(self).write_data == data,
            final(self).write_mask == old(self).write_mask,
    {
        self.read_enable = read_en;
        self.write_enable = write_en;
        self.address = addr;
        self.write_data = data;
        if self.write_enable {
            let mask = self.write_mask;
            self.sequential_write(addr, data, mask);
        }
        if self.read_enable {
            self.combinational_read(addr);
        }
    }

    pub fn get_read_data(&self) -> (r: Word)
        ensures
            r == self.read_data,
    {
        self.read_data
    }

    /// Select the write mask for subsequent partial-word stores.
    pub fn set_write_mask(&mut self, mask: u8)
        ensures
            *final(self) == (Memory { write_mask: mask, ..*old(self) }),
    {
        self.write_mask = mask;
    }

    /// Bulk-initialize memory: whole words at 4-byte aligned byte addresses
    /// only; misaligned or out-of-range entries are skipped.
    pub fn load_program(&mut self, program: &[(Addr, Word)])
        requires
            old(self).wf(),
        ensures
            final(self).wf(),
            final(self).data@ == spec_load_program(old(self).data@, program@),
            final(self).read_enable == old(self).read_enable,
            final(self).write_enable == old(self).write_enable,
            final(self).address == old(self).address,
            final(self).write_data == old(self).write_data,
            final(self).read_data == old(self).read_data,
            final(self).write_mask == old(self).write_mask,
    {
        let n = program.len();
        let mut i: usize = 0;
        proof {
            assert(program@.skip(0) =~= program@);
        }
        while i < n
            invariant
                i <= n,
                n == program@.len(),
                self.wf(),
                spec_load_program(self.data@, program@.skip(i as int)) == spec_load_program(
                    old(self).data@,
                    program@,
                ),
                self.read_enable == old(self).read_enable,
                self.write_enable == old(self).write_enable,
                self.address == old(self).address,
                self.write_data == old(self).write_data,
                self.read_data == old(self).read_data,
                self.write_mask == old(self).write_mask,
            decreases n - i,
        {
            let (addr, data) = program[i];
            proof {
                lemma_addr_ops(addr);
                assert(program@.skip(i as int)[0] == program@[i as int]);
                assert(program@.skip(i as int).skip(1) =~= program@.skip(i + 1));
            }
            if addr & 0x3 == 0 {
                let word_addr = (addr >> 2) as usize;
                if word_addr < self.data.len() {
                    self.data.set(word_addr, data);
                }
            }
            i = i + 1;
        }
        proof {
            assert(program@.skip(n as int) =~= Seq::<(Addr, Word)>::empty());
        }
    }

    /// Read-only word fetch at a byte address, used for instruction fetch.
    pub fn fetch(&self, addr: Addr) -> (w: Word)
        requires
            self.wf(),
        ensures
            w == spec_fetch(self.data@, addr),
    {
        proof {
            lemma_addr_ops(addr);
        }
        let word_addr = ((addr >> 2) as usize) % self.data.len();
        self.data[word_addr]
    }

    /// Zero the array and the read latch; the bus latches keep their values.
    pub fn reset(&mut self)
        ensures
            final(self).wf(),
            final(self).data@ == Seq::new(MEM_WORDS as nat, |i: int| 0u32),
            final(self).read_data == 0,
            final(self).read_enable == old(self).read_enable,
            final(self).write_enable == old(self).write_enable,
            final(self).address == old(self).address,
            final(self).write_data == old(self).write_data,
            final(self).write_mask == old(self).write_mask,
    {
        self.data = make_zero_words(MEM_WORDS);
        self.read_data = 0;
    }
}

/// A vector of `n` zero words.
fn make_zero_words(n: usize) -> (v: Vec<Word>)
    ensures
        v@ == Seq::new(n as nat, |i: int| 0u32),
{
    let mut v: Vec<Word> = Vec::new();
    let mut i: usize = 0;
    while i < n
        invariant
            i <= n,
            v@ == Seq::new(i as nat, |j: int| 0u32),
        decreases n - i,
    {
        v.push(0);
        proof {
            assert(v@ =~= Seq::new((i + 1) as nat, |j: int| 0u32));
        }
        i = i + 1;
    }
    v
}

proof fn lemma_addr_ops(a: u32)
    by (bit_vector)
    ensures
        a >> 2 == a / 4,
        a & 0x3 == a % 4,
        a & 0x1 == a % 2,
        a % 4 < 4,
        (a % 4) * 8 < 32,
{
}

/// The alignment-drop rule: a halfword store to an odd address, or a word
/// store to an address that is not 4-byte aligned, leaves memory unchanged.
pub proof fn lemma_misaligned_store_dropped(data: Seq<Word>, addr: Addr, value: Word)
    requires
        data.len() == MEM_WORDS,
    ensures
        addr % 2 != 0 ==> spec_write_mem(data, addr, value, MASK_HALF) == data,
        addr % 4 != 0 ==> spec_write_mem(data, addr, value, MASK_WORD) == data,
{
    assert(0 <= spec_word_index(addr) < data.len());
    if addr % 2 != 0 {
        assert(spec_write_mem(data, addr, value, MASK_HALF) =~= data);
    }
    if addr % 4 != 0 {
        assert(spec_write_mem(data, addr, value, MASK_WORD) =~= data);
    }
}

} // verus!
