//! Execution tracing: a bounded log of executed instructions.

use crate::instruction::Addr;
use crate::instruction::Word;
use vstd::prelude::*;

verus! {

/// One executed instruction: the cycle it ran in, the address it was
/// fetched from, the raw word, and its disassembly.
#[derive(Debug, Clone)]
pub struct TraceEntry {
    pub cycle: u64,
    pub pc: Addr,
    pub instruction: Word,
    pub disassembly: String,
}

/// A bounded execution log: recording beyond the bound drops the oldest
/// entry.
pub struct ExecutionTrace {
    pub entries: Vec<TraceEntry>,
    pub max_entries: usize,
}

impl ExecutionTrace {
    pub fn new(max_entries: usize) -> (t: ExecutionTrace)
        ensures
            t.entries@ == Seq::<TraceEntry>::empty(),
            t.max_entries == max_entries,
    {
        ExecutionTrace { entries: Vec::new(), max_entries }
    }

    /// Append one entry; once the log is longer than its bound, the oldest
    /// entry leaves.
    pub fn record(&mut self, entry: TraceEntry)
        requires
            old(self).entries@.len() < usize::MAX,
        ensures
            final(self).max_entries == old(self).max_entries,
            final(self).entries@ == if old(self).entries@.len() + 1 > old(self).max_entries {
                old(self).entries@.push(entry).drop_first()
            } else {
                old(self).entries@.push(entry)
            },
    {
        self.entries.push(entry);
        if self.entries.len() > self.max_entries {
            self.entries.remove(0);
            proof {
                assert(self.entries@ =~= old(self).entries@.push(entry).drop_first());
            }
        }
    }

    pub fn get_entries(&self) -> (r: &[TraceEntry])
        ensures
            r@ == self.entries@,
    {
        self.entries.as_slice()
    }

    pub fn clear(&mut self)
        ensures
            final(self).entries@ == Seq::<TraceEntry>::empty(),
            final(self).max_entries == old(self).max_entries,
    {
        self.entries.clear();
    }
}

} // verus!
