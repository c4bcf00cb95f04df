//! Cycle-stepped simulator of the RISC-V RV32I base integer instruction set.
//!
//! The simulator models a register file with a hardwired zero register, a
//! word-addressed memory with masked and alignment-checked stores, an
//! arithmetic-logic unit, and an instruction decoder / control unit, and
//! advances them through one fetch-decode-execute step per `clock` call.

pub mod alu;
pub mod assembler;
pub mod control_unit;
pub mod cpu;
pub mod debugger;
pub mod disasm;
pub mod gates;
pub mod instruction;
pub mod memory;
pub mod proto;
pub mod register_file;
pub mod text;
pub mod trace;

pub use alu::Alu;
pub use alu::AluOp;
pub use alu::Flags;
pub use assembler::AsmError;
pub use assembler::Assembler;
pub use assembler::LabelTable;
pub use assembler::encode_instruction;
pub use assembler::parse_assembly;
pub use control_unit::ControlSignals;
pub use control_unit::ControlUnit;
pub use cpu::Cpu;
pub use debugger::Debugger;
pub use disasm::DisasmError;
pub use disasm::disassemble;
pub use instruction::Addr;
pub use instruction::Instruction;
pub use instruction::InstructionEncoder;
pub use instruction::Word;
pub use memory::Memory;
pub use register_file::RegisterFile;
pub use trace::ExecutionTrace;
pub use trace::TraceEntry;
