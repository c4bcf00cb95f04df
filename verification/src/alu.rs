//! Arithmetic-logic unit for the RV32I datapath.
//!
//! `execute` is a combinational function of the operation tag and the two
//! 32-bit operands; it also latches the result and the condition flags for
//! the caller to read afterwards.

use crate::instruction::Word;
use crate::instruction::signed32;
use vstd::prelude::*;

verus! {

/// The operation an [`Alu`] performs in one cycle.
#[derive(Clone, Copy, Debug, PartialEq, Eq, Structural)]
pub enum AluOp {
    Add,
    Sub,
    And,
    Or,
    Xor,
    Not,
    Sll,
    Srl,
    Sra,
    Slt,
    Sltu,
    PassA,
    PassB,
}

/// Condition flags latched by the ALU after each operation.
#[derive(Clone, Copy, Debug, PartialEq, Eq, Structural, Default)]
pub struct Flags {
    pub zero: bool,
    pub carry: bool,
    pub negative: bool,
    pub overflow: bool,
}

impl Flags {
    pub fn new() -> (f: Flags)
        ensures
            f == (Flags { zero: false, carry: false, negative: false, overflow: false }),
    {
        Flags { zero: false, carry: false, negative: false, overflow: false }
    }
}

/// 32-bit result of one ALU operation.  Add and Sub wrap; shift amounts are
/// masked to their low five bits; Slt and Sltu yield 1 or 0.
pub open spec fn spec_alu_result(op: AluOp, a: Word, b: Word) -> Word {
    match op {
        AluOp::Add => ((a + b) % 0x1_0000_0000) as Word,
        AluOp::Sub => ((a - b + 0x1_0000_0000) % 0x1_0000_0000) as Word,
        AluOp::And => a & b,
        AluOp::Or => a | b,
        AluOp::Xor => a ^ b,
        AluOp::Not => !a,
        AluOp::Sll => a << (b & 0x1F),
        AluOp::Srl => a >> (b & 0x1F),
        AluOp::Sra => (((a as i32) >> (b & 0x1F)) as Word),
        AluOp::Slt => if signed32(a) < signed32(b) {
            1
        } else {
            0
        },
        AluOp::Sltu => if a < b {
            1
        } else {
            0
        },
        AluOp::PassA => a,
        AluOp::PassB => b,
    }
}

/// The unsigned operation wrapped around: a carry out of Add, a borrow into
/// Sub.  False for every other operation.
pub open spec fn spec_alu_carry(op: AluOp, a: Word, b: Word) -> bool {
    match op {
        AluOp::Add => a + b >= 0x1_0000_0000,
        AluOp::Sub => a < b,
        _ => false,
    }
}

/// The signed operation left the 32-bit range: the two's-complement reading
/// of the result differs from the exact signed sum or difference.  False for
/// every other operation.
pub open spec fn spec_alu_overflow(op: AluOp, a: Word, b: Word) -> bool {
    match op {
        AluOp::Add => signed32(a) + signed32(b) != signed32(spec_alu_result(op, a, b)),
        AluOp::Sub => signed32(a) - signed32(b) != signed32(spec_alu_result(op, a, b)),
        _ => false,
    }
}

/// Flags after executing `op` on `a` and `b`: `zero` and `negative` describe
/// the result; `carry` and `overflow` the arithmetic that produced it.
pub open spec fn spec_alu_flags(op: AluOp, a: Word, b: Word) -> Flags {
    Flags {
        zero: spec_alu_result(op, a, b) == 0,
        carry: spec_alu_carry(op, a, b),
        negative: spec_alu_result(op, a, b) >= 0x8000_0000,
        overflow: spec_alu_overflow(op, a, b),
    }
}

/// Arithmetic-logic unit: combinational, with the last result and its flags
/// latched for later reads.
pub struct Alu {
    pub result: Word,
    pub flags: Flags,
}

impl Alu {
    pub fn new() -> (alu: Alu)
        ensures
            alu.result == 0,
            alu.flags == (Flags { zero: false, carry: false, negative: false, overflow: false }),
    {
        Alu { result: 0, flags: Flags::new() }
    }

    /// Execute one operation and latch the result and flags.
    pub fn execute(&mut self, op: AluOp, a: Word, b: Word) -> (r: Word)
        ensures
            r == spec_alu_result(op, a, b),
            final(self).result == spec_alu_result(op, a, b),
            final(self).flags == spec_alu_flags(op, a, b),
    {
        let mut carry = false;
        let mut overflow = false;
        let result: Word = match op {
            AluOp::Add => {
                let r = a.wrapping_add(b);
                carry = r < a;
                overflow = ((a ^ r) & (b ^ r)) & 0x8000_0000 != 0;
                proof {
                    lemma_add_flags(a, b, r);
                }
                r
            },
            AluOp::Sub => {
                let r = a.wrapping_sub(b);
                carry = a < b;
                overflow = ((a ^ b) & (a ^ r)) & 0x8000_0000 != 0;
                proof {
                    lemma_sub_flags(a, b, r);
                }
                r
            },
            AluOp::And => a & b,
            AluOp::Or => a | b,
            AluOp::Xor => a ^ b,
            AluOp::Not => !a,
            AluOp::Sll => {
                proof {
                    lemma_shift_amount(b);
                }
                a << (b & 0x1F)
            },
            AluOp::Srl => {
                proof {
                    lemma_shift_amount(b);
                }
                a >> (b & 0x1F)
            },
            AluOp::Sra => {
                proof {
                    lemma_shift_amount(b);
                }
                ((a as i32) >> (b & 0x1F)) as u32
            },
            AluOp::Slt => {
                proof {
                    lemma_signed_compare(a, b);
                }
                if (a as i32) < (b as i32) {
                    1
                } else {
                    0
                }
            },
            AluOp::Sltu => {
                if a < b {
                    1
                } else {
                    0
                }
            },
            AluOp::PassA => a,
            AluOp::PassB => b,
        };
        proof {
            lemma_negative_bit(result);
        }
        self.result = result;
        self.flags = Flags {
            zero: result == 0,
            carry,
            negative: result & 0x8000_0000 != 0,
            overflow,
        };
        result
    }

    /// The result of the last operation was zero (used by branches).
    pub fn is_zero(&self) -> (z: bool)
        ensures
            z == self.flags.zero,
    {
        self.flags.zero
    }

    pub fn get_result(&self) -> (r: Word)
        ensures
            r == self.result,
    {
        self.result
    }

    pub fn get_flags(&self) -> (f: Flags)
        ensures
            f == self.flags,
    {
        self.flags
    }
}

pub proof fn lemma_add_flags(a: u32, b: u32, r: u32)
    by (bit_vector)
    requires
        r == (a + b) % 0x1_0000_0000,
    ensures
        (r < a) == (a + b >= 0x1_0000_0000),
        (((a ^ r) & (b ^ r)) & 0x8000_0000 != 0) == (signed32(a) + signed32(b) != signed32(r)),
{
}

pub proof fn lemma_sub_flags(a: u32, b: u32, r: u32)
    by (bit_vector)
    requires
        r == (a - b + 0x1_0000_0000) % 0x1_0000_0000,
    ensures
        (((a ^ b) & (a ^ r)) & 0x8000_0000 != 0) == (signed32(a) - signed32(b) != signed32(r)),
{
}

pub proof fn lemma_shift_amount(b: u32)
    by (bit_vector)
    ensures
        b & 0x1F < 32,
{
}

pub proof fn lemma_signed_compare(a: u32, b: u32)
    by (bit_vector)
    ensures
        ((a as i32) < (b as i32)) == (signed32(a) < signed32(b)),
{
}

pub proof fn lemma_negative_bit(r: u32)
    by (bit_vector)
    ensures
        (r & 0x8000_0000 != 0) == (r >= 0x8000_0000),
{
}

} // verus!
