//! Prototype memory: a plain word array addressed directly by word index,
//! wrapping modulo its size.

use crate::proto::types::Logic32;
use vstd::prelude::*;

verus! {

/// Number of words in the prototype memory array.
pub const PROTO_MEM_WORDS: usize = 1024;

/// Mathematical state of a prototype [`Memory`].
pub ghost struct MemoryView {
    pub data: Seq<Logic32>,
    pub read_enable: bool,
    pub write_enable: bool,
    pub address: Logic32,
    pub write_data: Logic32,
    pub read_data: Logic32,
}

/// Word index a prototype address selects: wraparound, never a fault.
pub open spec fn spec_index(addr: Logic32) -> int {
    (addr % (PROTO_MEM_WORDS as u32)) as int
}

/// Word-addressed memory with latched buses.
pub struct Memory {
    pub data: Vec<Logic32>,
    pub read_enable: bool,
    pub write_enable: bool,
    pub address: Logic32,
    pub write_data: Logic32,
    pub read_data: Logic32,
}

impl View for Memory {
    type V = MemoryView;

    open spec fn view(&self) -> MemoryView {
        MemoryView {
            data: self.data@,
            read_enable: self.read_enable,
            write_enable: self.write_enable,
            address: self.address,
            write_data: self.write_data,
            read_data: self.read_data,
        }
    }
}

impl Memory {
    /// The array holds exactly [`PROTO_MEM_WORDS`] words.
    pub open spec fn wf(&self) -> bool {
        self.data.len() == PROTO_MEM_WORDS
    }

    pub fn new() -> (m: Memory)
        ensures
            m.wf(),
            m@.data == Seq::new(PROTO_MEM_WORDS as nat, |i: int| 0u32),
            m@.read_data == 0,
    {
        Memory {
            data: zero_words(PROTO_MEM_WORDS),
            read_enable: false,
            write_enable: false,
            address: 0,
            write_data: 0,
            read_data: 0,
        }
    }

    /// Combinational read: latch the addressed word.
    pub fn read(&mut self, addr: Logic32)
        requires
            old(self).wf(),
        ensures
            *final(self) == (Memory {
                read_data: old(self).data@[spec_index(addr)],
                ..*old(self)
            }),
    {
        let index = (addr as usize) % self.data.len();
        self.read_data = self.data[index];
    }

    /// Sequential write: store the word at the wrapped index.
    pub fn write(&mut self, addr: Logic32, data: Logic32)
        requires
            old(self).wf(),
        ensures
            final(self).data@ == old(self).data@.update(spec_index(addr), data),
            final(self).wf(),
            final(self).read_enable == old(self).read_enable,
            final(self).write_enable == old(self).write_enable,
            final(self).address == old(self).address,
            final(self).write_data == old(self).write_data,
            final(self).read_data == old(self).read_data,
    {
        let index = (addr as usize) % self.data.len();
        self.data.set(index, data);
    }

    /// Clock edge: latch the buses, write when enabled, then read when
    /// enabled.
    pub fn clock(&mut self, read_en: bool, write_en: bool, addr: Logic32, data: Logic32)
        requires
            old(self).wf(),
        ensures
            final(self).wf(),
            final(self).data@ == if write_en {
                old(self).data@.update(spec_index(addr), data)
            } else {
                old(self).data@
            },
            final(self).read_data == if read_en {
                final(self).data@[spec_index(addr)]
            } else {
                old(self).read_data
            },
            final(self).read_enable == read_en,
            final(self).write_enable == write_en,
            final(self).address == addr,
            final(self).write_data == data,
    {
        self.read_enable = read_en;
        self.write_enable = write_en;
        self.address = addr;
        self.write_data = data;
        if self.write_enable {
            let a = self.address;
            let d = self.write_data;
            self.write(a, d);
        }
        if self.read_enable {
            let a = self.address;
            self.read(a);
        }
    }

    pub fn get_read_data(&self) -> (r: Logic32)
        ensures
            r == self.read_data,
    {
        self.read_data
    }

    /// Bulk-initialize memory by word index; out-of-range entries are
    /// skipped.
    pub fn load_program(&mut self, program: &[(usize, Logic32)])
        requires
            old(self).wf(),
        ensures
            final(self).wf(),
            final(self).data@ == spec_load(old(self).data@, program@),
            final(self).read_enable == old(self).read_enable,
            final(self).write_enable == old(self).write_enable,
            final(self).address == old(self).address,
            final(self).write_data == old(self).write_data,
            final(self).read_data == old(self).read_data,
    {
        let n = program.len();
        let mut i: usize = 0;
        proof {
            assert(program@.skip(0) =~= program@);
        }
        while i < n
            invariant
                i <= n,
                n == program@.len(),
                self.wf(),
                spec_load(self.data@, program@.skip(i as int)) == spec_load(
                    old(self).data@,
                    program@,
                ),
                self.read_enable == old(self).read_enable,
                self.write_enable == old(self).write_enable,
                self.address == old(self).address,
                self.write_data == old(self).write_data,
                self.read_data == old(self).read_data,
            decreases n - i,
        {
            let (addr, data) = program[i];
            proof {
                assert(program@.skip(i as int)[0] == program@[i as int]);
                assert(program@.skip(i as int).skip(1) =~= program@.skip(i + 1));
            }
            if addr < self.data.len() {
                self.data.set(addr, data);
            }
            i = i + 1;
        }
        proof {
            assert(program@.skip(n as int) =~= Seq::<(usize, Logic32)>::empty());
        }
    }
}

/// Memory contents after loading `entries` in order, skipping out-of-range
/// word indices.
pub open spec fn spec_load(data: Seq<Logic32>, entries: Seq<(usize, Logic32)>) -> Seq<Logic32>
    decreases entries.len(),
{
    if entries.len() == 0 {
        data
    } else {
        let (addr, word) = entries[0];
        let next = if addr < PROTO_MEM_WORDS {
            data.update(addr as int, word)
        } else {
            data
        };
        spec_load(next, entries.skip(1))
    }
}

/// A vector of `n` zero words.
fn zero_words(n: usize) -> (v: Vec<Logic32>)
    ensures
        v@ == Seq::new(n as nat, |i: int| 0u32),
{
    let mut v: Vec<Logic32> = Vec::new();
    let mut i: usize = 0;
    while i < n
        invariant
            i <= n,
            v@ == Seq::new(i as nat, |j: int| 0u32),
        decreases n - i,
    {
        v.push(0);
        proof {
            assert(v@ =~= Seq::new((i + 1) as nat, |j: int| 0u32));
        }
        i = i + 1;
    }
    v
}

} // verus!
