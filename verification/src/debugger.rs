//! Debugger shell around a [`Cpu`]: breakpoints and single-stepping.

use crate::cpu::Cpu;
use crate::cpu::spec_run;
use crate::cpu::spec_step;
use crate::instruction::Addr;
use vstd::prelude::*;

verus! {

/// A CPU together with a set of breakpoint byte addresses.
pub struct Debugger {
    pub cpu: Cpu,
    pub breakpoints: Vec<Addr>,
}

impl Debugger {
    pub fn new(cpu: Cpu) -> (d: Debugger)
        ensures
            d.cpu == cpu,
            d.breakpoints@ == Seq::<Addr>::empty(),
    {
        Debugger { cpu, breakpoints: Vec::new() }
    }

    pub fn add_breakpoint(&mut self, address: Addr)
        requires
            old(self).breakpoints@.len() < usize::MAX,
        ensures
            final(self).breakpoints@ == old(self).breakpoints@.push(address),
            final(self).cpu == old(self).cpu,
    {
        self.breakpoints.push(address);
    }

    /// Execute exactly one instruction.
    pub fn step(&mut self)
        requires
            old(self).cpu.wf(),
            old(self).cpu.cycle_count < u64::MAX,
        ensures
            final(self).cpu.wf(),
            final(self).cpu@ == spec_step(old(self).cpu@),
            final(self).breakpoints == old(self).breakpoints,
    {
        self.cpu.clock();
    }

    /// Run until the PC sits on a breakpoint and return that PC.  The check
    /// happens before each step, so the run stops at the first breakpoint
    /// reached: no earlier state's PC is one, and a PC already on a
    /// breakpoint returns at once with the CPU untouched.  The cycle counter
    /// topping out also stops the run: the counter cannot grow past its
    /// width.
    pub fn run_until_breakpoint(&mut self) -> (pc: Addr)
        requires
            old(self).cpu.wf(),
        ensures
            final(self).cpu.wf(),
            final(self).breakpoints == old(self).breakpoints,
            pc == final(self).cpu.control.program_counter,
            final(self).breakpoints@.contains(pc) || final(self).cpu.cycle_count == u64::MAX,
            exists|n: nat|
                final(self).cpu@ == spec_run(old(self).cpu@, n) && (forall|m: nat|
                    m < n ==> !old(self).breakpoints@.contains(
                        #[trigger] spec_run(old(self).cpu@, m).control.program_counter,
                    )),
    {
        let ghost mut steps: nat = 0;
        proof {
            assert(self.cpu@ == spec_run(old(self).cpu@, 0));
        }
        loop
            invariant
                self.cpu.wf(),
                self.breakpoints == old(self).breakpoints,
                self.cpu@ == spec_run(old(self).cpu@, steps),
                forall|m: nat|
                    m < steps ==> !old(self).breakpoints@.contains(
                        #[trigger] spec_run(old(self).cpu@, m).control.program_counter,
                    ),
            decreases u64::MAX - self.cpu.cycle_count,
        {
            let pc = self.cpu.control.get_pc();
            if self.contains_breakpoint(pc) {
                return pc;
            }
            if self.cpu.get_cycle_count() == u64::MAX {
                return pc;
            }
            proof {
                lemma_run_extend(old(self).cpu@, steps);
                assert(!old(self).breakpoints@.contains(
                    spec_run(old(self).cpu@, steps).control.program_counter,
                ));
            }
            self.cpu.clock();
            proof {
                steps = steps + 1;
            }
        }
    }

    /// Whether `pc` is one of the breakpoint addresses.
    fn contains_breakpoint(&self, pc: Addr) -> (r: bool)
        ensures
            r == self.breakpoints@.contains(pc),
    {
        let n = self.breakpoints.len();
        let mut i: usize = 0;
        while i < n
            invariant
                i <= n,
                n == self.breakpoints@.len(),
                forall|j: int| 0 <= j < i ==> self.breakpoints@[j] != pc,
            decreases n - i,
        {
            if self.breakpoints[i] == pc {
                return true;
            }
            i = i + 1;
        }
        false
    }

    pub fn get_cpu(&self) -> (c: &Cpu)
        ensures
            c == &self.cpu,
    {
        &self.cpu
    }

    pub fn get_cpu_mut(&mut self) -> (c: &mut Cpu)
        ensures
            *c == old(self).cpu,
            *final(self) == (Debugger { cpu: *final(c), breakpoints: old(self).breakpoints }),
    {
        &mut self.cpu
    }
}

proof fn lemma_run_extend(c: crate::cpu::CpuView, n: nat)
    ensures
        spec_step(spec_run(c, n)) == spec_run(c, n + 1),
    decreases n,
{
    assert(spec_run(c, n + 1) == spec_run(spec_step(c), n));
    if n > 0 {
        lemma_run_extend(spec_step(c), (n - 1) as nat);
    }
}

} // verus!
