//! Signal and instruction types of the prototype: SystemVerilog-style
//! logic-vector aliases, the byte-opcode instruction record, and the
//! accumulator ALU's operation set.

use crate::alu::Flags;
use crate::instruction::signed32;
use vstd::prelude::*;

verus! {

/// An 8-bit logic vector.
pub type Logic8 = u8;

/// A 16-bit logic vector.
pub type Logic16 = u16;

/// A 32-bit logic vector.
pub type Logic32 = u32;

/// A 4-bit field carried in a byte.
pub type Bit4 = u8;

/// One prototype instruction: `{opcode[7:0], address[15:0], flags[3:0]}`.
#[derive(Clone, Copy, Debug, PartialEq, Eq, Structural)]
pub struct Instruction {
    pub opcode: Logic8,
    pub address: Logic16,
    pub flags: Bit4,
}

/// The accumulator ALU's operation set.
#[derive(Clone, Copy, Debug, PartialEq, Eq, Structural)]
pub enum AluOp {
    Nop,
    Add,
    Sub,
    And,
    Or,
    Xor,
    Not,
    Shl,
    Shr,
}

/// The operation an opcode byte selects, by its position in the operation
/// set; an out-of-range byte is a no-op.  A safe replacement for
/// reinterpreting the byte as the enumeration.
pub open spec fn spec_op_of_byte(op: u8) -> AluOp {
    if op == 0 {
        AluOp::Nop
    } else if op == 1 {
        AluOp::Add
    } else if op == 2 {
        AluOp::Sub
    } else if op == 3 {
        AluOp::And
    } else if op == 4 {
        AluOp::Or
    } else if op == 5 {
        AluOp::Xor
    } else if op == 6 {
        AluOp::Not
    } else if op == 7 {
        AluOp::Shl
    } else if op == 8 {
        AluOp::Shr
    } else {
        AluOp::Nop
    }
}

/// Exec counterpart of [`spec_op_of_byte`].
pub fn op_of_byte(op: u8) -> (r: AluOp)
    ensures
        r == spec_op_of_byte(op),
{
    if op == 1 {
        AluOp::Add
    } else if op == 2 {
        AluOp::Sub
    } else if op == 3 {
        AluOp::And
    } else if op == 4 {
        AluOp::Or
    } else if op == 5 {
        AluOp::Xor
    } else if op == 6 {
        AluOp::Not
    } else if op == 7 {
        AluOp::Shl
    } else if op == 8 {
        AluOp::Shr
    } else {
        AluOp::Nop
    }
}

/// 32-bit result of one accumulator-ALU operation: Nop passes the
/// accumulator through, Add and Sub wrap, shifts mask their amount to five
/// bits.
pub open spec fn spec_alu_result(op: AluOp, a: Logic32, b: Logic32) -> Logic32 {
    match op {
        AluOp::Nop => a,
        AluOp::Add => ((a + b) % 0x1_0000_0000) as Logic32,
        AluOp::Sub => ((a - b + 0x1_0000_0000) % 0x1_0000_0000) as Logic32,
        AluOp::And => a & b,
        AluOp::Or => a | b,
        AluOp::Xor => a ^ b,
        AluOp::Not => !a,
        AluOp::Shl => a << (b & 0x1F),
        AluOp::Shr => a >> (b & 0x1F),
    }
}

/// Carry flag of one accumulator-ALU operation: the unsigned arithmetic
/// wrapped around.
pub open spec fn spec_alu_carry(op: AluOp, a: Logic32, b: Logic32) -> bool {
    match op {
        AluOp::Add => a + b >= 0x1_0000_0000,
        AluOp::Sub => a < b,
        _ => false,
    }
}

/// Overflow flag of one accumulator-ALU operation: the signed arithmetic
/// left the 32-bit range.
pub open spec fn spec_alu_overflow(op: AluOp, a: Logic32, b: Logic32) -> bool {
    match op {
        AluOp::Add => signed32(a) + signed32(b) != signed32(spec_alu_result(op, a, b)),
        AluOp::Sub => signed32(a) - signed32(b) != signed32(spec_alu_result(op, a, b)),
        _ => false,
    }
}

/// All four flags after one accumulator-ALU operation.
pub open spec fn spec_alu_flags(op: AluOp, a: Logic32, b: Logic32) -> Flags {
    Flags {
        zero: spec_alu_result(op, a, b) == 0,
        carry: spec_alu_carry(op, a, b),
        negative: spec_alu_result(op, a, b) >= 0x8000_0000,
        overflow: spec_alu_overflow(op, a, b),
    }
}

/// Compute one accumulator-ALU operation with its flags.
pub fn alu_execute(op: AluOp, a: Logic32, b: Logic32) -> (r: (Logic32, Flags))
    ensures
        r.0 == spec_alu_result(op, a, b),
        r.1 == spec_alu_flags(op, a, b),
{
    let mut carry = false;
    let mut overflow = false;
    let result: Logic32 = match op {
        AluOp::Nop => a,
        AluOp::Add => {
            let r = a.wrapping_add(b);
            carry = r < a;
            overflow = ((a ^ r) & (b ^ r)) & 0x8000_0000 != 0;
            proof {
                crate::alu::lemma_add_flags(a, b, r);
            }
            r
        },
        AluOp::Sub => {
            let r = a.wrapping_sub(b);
            carry = a < b;
            overflow = ((a ^ b) & (a ^ r)) & 0x8000_0000 != 0;
            proof {
                crate::alu::lemma_sub_flags(a, b, r);
            }
            r
        },
        AluOp::And => a & b,
        AluOp::Or => a | b,
        AluOp::Xor => a ^ b,
        AluOp::Not => !a,
        AluOp::Shl => {
            proof {
                crate::alu::lemma_shift_amount(b);
            }
            a << (b & 0x1F)
        },
        AluOp::Shr => {
            proof {
                crate::alu::lemma_shift_amount(b);
            }
            a >> (b & 0x1F)
        },
    };
    proof {
        crate::alu::lemma_negative_bit(result);
    }
    let flags = Flags {
        zero: result == 0,
        carry,
        negative: result & 0x8000_0000 != 0,
        overflow,
    };
    (result, flags)
}

} // verus!
