//! Tests of the debugger shell and the execution trace.

use riscv_sim::Cpu;
use riscv_sim::Debugger;
use riscv_sim::ExecutionTrace;
use riscv_sim::InstructionEncoder;
use riscv_sim::TraceEntry;

#[test]
fn test_debugger_step() {
    let mut cpu = Cpu::new();
    cpu.load_program(&[(0, InstructionEncoder::i_type(0b0010011, 1, 0b000, 0, 5))]);
    cpu.reset();
    let mut dbg = Debugger::new(cpu);
    dbg.step();
    assert_eq!(dbg.get_cpu().get_cycle_count(), 1);
    assert_eq!(dbg.get_cpu().registers.peek(1), 5);
}

#[test]
fn test_debugger_run_until_breakpoint() {
    let mut cpu = Cpu::new();
    let program = vec![
        (0, InstructionEncoder::i_type(0b0010011, 1, 0b000, 0, 1)),
        (4, InstructionEncoder::i_type(0b0010011, 2, 0b000, 0, 2)),
        (8, InstructionEncoder::i_type(0b0010011, 3, 0b000, 0, 3)),
    ];
    cpu.load_program(&program);
    cpu.reset();
    let mut dbg = Debugger::new(cpu);
    dbg.add_breakpoint(8);
    let pc = dbg.run_until_breakpoint();
    assert_eq!(pc, 8);
    // The breakpoint instruction itself has not executed yet.
    assert_eq!(dbg.get_cpu().registers.peek(2), 2);
    assert_eq!(dbg.get_cpu().registers.peek(3), 0);
}

#[test]
fn test_debugger_breakpoint_at_current_pc() {
    let mut cpu = Cpu::new();
    cpu.reset();
    let mut dbg = Debugger::new(cpu);
    dbg.add_breakpoint(0);
    let pc = dbg.run_until_breakpoint();
    assert_eq!(pc, 0);
    assert_eq!(dbg.get_cpu().get_cycle_count(), 0);
}

#[test]
fn test_debugger_cpu_access() {
    let cpu = Cpu::new();
    let mut dbg = Debugger::new(cpu);
    dbg.get_cpu_mut().load_program(&[(0, 7)]);
    assert_eq!(dbg.get_cpu().memory.fetch(0), 7);
}

#[test]
fn test_trace_record_and_clear() {
    let mut trace = ExecutionTrace::new(2);
    trace.record(TraceEntry {
        cycle: 1,
        pc: 0,
        instruction: 0x13,
        disassembly: String::from("addi x0(zero), x0(zero), 0"),
    });
    trace.record(TraceEntry {
        cycle: 2,
        pc: 4,
        instruction: 0x13,
        disassembly: String::from("addi x0(zero), x0(zero), 0"),
    });
    assert_eq!(trace.get_entries().len(), 2);
    assert_eq!(trace.get_entries()[0].cycle, 1);

    // Recording past the bound drops the oldest entry.
    trace.record(TraceEntry {
        cycle: 3,
        pc: 8,
        instruction: 0x13,
        disassembly: String::from("addi x0(zero), x0(zero), 0"),
    });
    assert_eq!(trace.get_entries().len(), 2);
    assert_eq!(trace.get_entries()[0].cycle, 2);
    assert_eq!(trace.get_entries()[1].cycle, 3);

    trace.clear();
    assert_eq!(trace.get_entries().len(), 0);
}
