//! Disassembler: RV32I machine words back to assembly text.
//!
//! A mechanical opcode-to-mnemonic mapper over the same bit-field accessors
//! the datapath decodes with, so the text stays bit-compatible with
//! execution.  Every output string is pinned down, character for character,
//! by a spec-level rendering.

use crate::instruction::Instruction;
use crate::instruction::Word;
use crate::instruction::spec_imm_b;
use crate::instruction::spec_imm_i;
use crate::instruction::spec_imm_j;
use crate::instruction::spec_imm_s;
use crate::text::i32_to_dec;
use crate::text::spec_dec;
use crate::text::spec_dec_signed;
use crate::text::spec_hex;
use crate::text::u32_to_dec;
use crate::text::u32_to_hex;
use vstd::prelude::*;

verus! {

/// Why a word could not be disassembled.
#[derive(Clone, Copy, Debug, PartialEq, Eq, Structural)]
pub enum DisasmError {
    /// The low seven bits name no RV32I instruction family.
    UnknownOpcode(u8),
    /// The family is known but the function fields select no instruction.
    InvalidInstruction(Word),
}

/// ABI name of a general-purpose register (meaningful below 32).
pub open spec fn spec_abi_name(reg: u8) -> Seq<char> {
    if reg == 0 {
        "zero"@
    } else if reg == 1 {
        "ra"@
    } else if reg == 2 {
        "sp"@
    } else if reg == 3 {
        "gp"@
    } else if reg == 4 {
        "tp"@
    } else if reg == 5 {
        "t0"@
    } else if reg == 6 {
        "t1"@
    } else if reg == 7 {
        "t2"@
    } else if reg == 8 {
        "s0"@
    } else if reg == 9 {
        "s1"@
    } else if reg == 10 {
        "a0"@
    } else if reg == 11 {
        "a1"@
    } else if reg == 12 {
        "a2"@
    } else if reg == 13 {
        "a3"@
    } else if reg == 14 {
        "a4"@
    } else if reg == 15 {
        "a5"@
    } else if reg == 16 {
        "a6"@
    } else if reg == 17 {
        "a7"@
    } else if reg == 18 {
        "s2"@
    } else if reg == 19 {
        "s3"@
    } else if reg == 20 {
        "s4"@
    } else if reg == 21 {
        "s5"@
    } else if reg == 22 {
        "s6"@
    } else if reg == 23 {
        "s7"@
    } else if reg == 24 {
        "s8"@
    } else if reg == 25 {
        "s9"@
    } else if reg == 26 {
        "s10"@
    } else if reg == 27 {
        "s11"@
    } else if reg == 28 {
        "t3"@
    } else if reg == 29 {
        "t4"@
    } else if reg == 30 {
        "t5"@
    } else {
        "t6"@
    }
}

/// Display form of a register: `x<n>(<abi>)` for an architectural index,
/// bare `x<n>` otherwise.
pub open spec fn spec_reg_name(reg: u8) -> Seq<char> {
    if reg < 32 {
        "x"@ + spec_dec(reg as nat) + "("@ + spec_abi_name(reg) + ")"@
    } else {
        "x"@ + spec_dec(reg as nat)
    }
}

/// Exec counterpart of [`spec_abi_name`].
fn abi_name(reg: u8) -> (r: &'static str)
    ensures
        r@ == spec_abi_name(reg),
{
    if reg == 0 {
        "zero"
    } else if reg == 1 {
        "ra"
    } else if reg == 2 {
        "sp"
    } else if reg == 3 {
        "gp"
    } else if reg == 4 {
        "tp"
    } else if reg == 5 {
        "t0"
    } else if reg == 6 {
        "t1"
    } else if reg == 7 {
        "t2"
    } else if reg == 8 {
        "s0"
    } else if reg == 9 {
        "s1"
    } else if reg == 10 {
        "a0"
    } else if reg == 11 {
        "a1"
    } else if reg == 12 {
        "a2"
    } else if reg == 13 {
        "a3"
    } else if reg == 14 {
        "a4"
    } else if reg == 15 {
        "a5"
    } else if reg == 16 {
        "a6"
    } else if reg == 17 {
        "a7"
    } else if reg == 18 {
        "s2"
    } else if reg == 19 {
        "s3"
    } else if reg == 20 {
        "s4"
    } else if reg == 21 {
        "s5"
    } else if reg == 22 {
        "s6"
    } else if reg == 23 {
        "s7"
    } else if reg == 24 {
        "s8"
    } else if reg == 25 {
        "s9"
    } else if reg == 26 {
        "s10"
    } else if reg == 27 {
        "s11"
    } else if reg == 28 {
        "t3"
    } else if reg == 29 {
        "t4"
    } else if reg == 30 {
        "t5"
    } else {
        "t6"
    }
}

/// Display form of a register index.
pub fn reg_name(reg: u8) -> (r: String)
    ensures
        r@ == spec_reg_name(reg),
{
    let mut s = "x".to_owned();
    let num = u32_to_dec(reg as u32);
    s.append(num.as_str());
    if reg < 32 {
        s.append("(");
        s.append(abi_name(reg));
        s.append(")");
    }
    s
}

/// Text of a LUI instruction: `lui <rd>, 0x<imm31:12>`.
pub open spec fn spec_disasm_lui(w: Word) -> Seq<char> {
    "lui "@ + spec_reg_name(((w >> 7) & 0x1F) as u8) + ", 0x"@ + spec_hex((w >> 12) as nat)
}

/// Text of an AUIPC instruction: `auipc <rd>, 0x<imm31:12>`.
pub open spec fn spec_disasm_auipc(w: Word) -> Seq<char> {
    "auipc "@ + spec_reg_name(((w >> 7) & 0x1F) as u8) + ", 0x"@ + spec_hex((w >> 12) as nat)
}

/// Text of a JAL instruction: `jal <rd>, <imm>`.
pub open spec fn spec_disasm_jal(w: Word) -> Seq<char> {
    "jal "@ + spec_reg_name(((w >> 7) & 0x1F) as u8) + ", "@ + spec_dec_signed(spec_imm_j(w))
}

/// Text of a JALR instruction: `jalr <rd>, <imm>(<rs1>)`.
pub open spec fn spec_disasm_jalr(w: Word) -> Seq<char> {
    "jalr "@ + spec_reg_name(((w >> 7) & 0x1F) as u8) + ", "@ + spec_dec_signed(spec_imm_i(w))
        + "("@ + spec_reg_name(((w >> 15) & 0x1F) as u8) + ")"@
}

/// Mnemonic of a branch instruction, by funct3; empty when none exists.
pub open spec fn spec_branch_mnemonic(funct3: u8) -> Seq<char> {
    if funct3 == 0b000 {
        "beq"@
    } else if funct3 == 0b001 {
        "bne"@
    } else if funct3 == 0b100 {
        "blt"@
    } else if funct3 == 0b101 {
        "bge"@
    } else if funct3 == 0b110 {
        "bltu"@
    } else if funct3 == 0b111 {
        "bgeu"@
    } else {
        Seq::empty()
    }
}

/// Text of a branch instruction: `<mnemonic> <rs1>, <rs2>, <imm>`.
pub open spec fn spec_disasm_branch(w: Word) -> Seq<char> {
    spec_branch_mnemonic(((w >> 12) & 0x7) as u8) + " "@ + spec_reg_name(
        ((w >> 15) & 0x1F) as u8,
    ) + ", "@ + spec_reg_name(((w >> 20) & 0x1F) as u8) + ", "@ + spec_dec_signed(spec_imm_b(w))
}

/// Mnemonic of a load instruction, by funct3; empty when none exists.
pub open spec fn spec_load_mnemonic(funct3: u8) -> Seq<char> {
    if funct3 == 0b000 {
        "lb"@
    } else if funct3 == 0b001 {
        "lh"@
    } else if funct3 == 0b010 {
        "lw"@
    } else if funct3 == 0b100 {
        "lbu"@
    } else if funct3 == 0b101 {
        "lhu"@
    } else {
        Seq::empty()
    }
}

/// Text of a load instruction: `<mnemonic> <rd>, <imm>(<rs1>)`.
pub open spec fn spec_disasm_load(w: Word) -> Seq<char> {
    spec_load_mnemonic(((w >> 12) & 0x7) as u8) + " "@ + spec_reg_name(((w >> 7) & 0x1F) as u8)
        + ", "@ + spec_dec_signed(spec_imm_i(w)) + "("@ + spec_reg_name(
        ((w >> 15) & 0x1F) as u8,
    ) + ")"@
}

/// Mnemonic of a store instruction, by funct3; empty when none exists.
pub open spec fn spec_store_mnemonic(funct3: u8) -> Seq<char> {
    if funct3 == 0b000 {
        "sb"@
    } else if funct3 == 0b001 {
        "sh"@
    } else if funct3 == 0b010 {
        "sw"@
    } else {
        Seq::empty()
    }
}

/// Text of a store instruction: `<mnemonic> <rs2>, <imm>(<rs1>)`.
pub open spec fn spec_disasm_store(w: Word) -> Seq<char> {
    spec_store_mnemonic(((w >> 12) & 0x7) as u8) + " "@ + spec_reg_name(((w >> 20) & 0x1F) as u8)
        + ", "@ + spec_dec_signed(spec_imm_s(w)) + "("@ + spec_reg_name(
        ((w >> 15) & 0x1F) as u8,
    ) + ")"@
}

/// Mnemonic of an OP-IMM instruction, by funct3 and bit 5 of funct7.
pub open spec fn spec_op_imm_mnemonic(funct3: u8, funct7: u8) -> Seq<char> {
    if funct3 == 0b000 {
        "addi"@
    } else if funct3 == 0b010 {
        "slti"@
    } else if funct3 == 0b011 {
        "sltiu"@
    } else if funct3 == 0b100 {
        "xori"@
    } else if funct3 == 0b110 {
        "ori"@
    } else if funct3 == 0b111 {
        "andi"@
    } else if funct3 == 0b001 {
        "slli"@
    } else if funct3 == 0b101 {
        if funct7 & 0x20 != 0 {
            "srai"@
        } else {
            "srli"@
        }
    } else {
        Seq::empty()
    }
}

/// Text of an OP-IMM instruction: `<mnemonic> <rd>, <rs1>, <imm>`.
pub open spec fn spec_disasm_op_imm(w: Word) -> Seq<char> {
    spec_op_imm_mnemonic(((w >> 12) & 0x7) as u8, (w >> 25) as u8) + " "@ + spec_reg_name(
        ((w >> 7) & 0x1F) as u8,
    ) + ", "@ + spec_reg_name(((w >> 15) & 0x1F) as u8) + ", "@ + spec_dec_signed(spec_imm_i(w))
}

/// Whether funct3 and funct7 select an OP (register-register)
/// instruction.
pub open spec fn spec_op_valid(funct3: u8, funct7: u8) -> bool {
    if funct3 == 0b000 || funct3 == 0b101 {
        funct7 == 0b0000000 || funct7 == 0b0100000
    } else {
        true
    }
}

/// Mnemonic of an OP instruction, by funct3 and funct7; empty when none
/// exists.
pub open spec fn spec_op_mnemonic(funct3: u8, funct7: u8) -> Seq<char> {
    if funct3 == 0b000 {
        if funct7 == 0b0000000 {
            "add"@
        } else if funct7 == 0b0100000 {
            "sub"@
        } else {
            Seq::empty()
        }
    } else if funct3 == 0b001 {
        "sll"@
    } else if funct3 == 0b010 {
        "slt"@
    } else if funct3 == 0b011 {
        "sltu"@
    } else if funct3 == 0b100 {
        "xor"@
    } else if funct3 == 0b101 {
        if funct7 == 0b0000000 {
            "srl"@
        } else if funct7 == 0b0100000 {
            "sra"@
        } else {
            Seq::empty()
        }
    } else if funct3 == 0b110 {
        "or"@
    } else {
        "and"@
    }
}

/// Text of an OP instruction: `<mnemonic> <rd>, <rs1>, <rs2>`.
pub open spec fn spec_disasm_op(w: Word) -> Seq<char> {
    spec_op_mnemonic(((w >> 12) & 0x7) as u8, (w >> 25) as u8) + " "@ + spec_reg_name(
        ((w >> 7) & 0x1F) as u8,
    ) + ", "@ + spec_reg_name(((w >> 15) & 0x1F) as u8) + ", "@ + spec_reg_name(
        ((w >> 20) & 0x1F) as u8,
    )
}

/// Whether the word can be disassembled at all.
pub open spec fn spec_disasm_valid(w: Word) -> bool {
    let opcode = w & 0x7F;
    let funct3 = ((w >> 12) & 0x7) as u8;
    let funct7 = (w >> 25) as u8;
    if opcode == 0b0110111 || opcode == 0b0010111 || opcode == 0b1101111 || opcode
        == 0b1100111 {
        true
    } else if opcode == 0b1100011 {
        spec_branch_mnemonic(funct3).len() > 0
    } else if opcode == 0b0000011 {
        spec_load_mnemonic(funct3).len() > 0
    } else if opcode == 0b0100011 {
        spec_store_mnemonic(funct3).len() > 0
    } else if opcode == 0b0010011 {
        true
    } else if opcode == 0b0110011 {
        spec_op_valid(funct3, funct7)
    } else if opcode == 0b1110011 {
        w == 0x00000073 || w == 0x00100073
    } else {
        false
    }
}

/// The text a valid word disassembles to.
pub open spec fn spec_disasm_text(w: Word) -> Seq<char> {
    let opcode = w & 0x7F;
    if opcode == 0b0110111 {
        spec_disasm_lui(w)
    } else if opcode == 0b0010111 {
        spec_disasm_auipc(w)
    } else if opcode == 0b1101111 {
        spec_disasm_jal(w)
    } else if opcode == 0b1100111 {
        spec_disasm_jalr(w)
    } else if opcode == 0b1100011 {
        spec_disasm_branch(w)
    } else if opcode == 0b0000011 {
        spec_disasm_load(w)
    } else if opcode == 0b0100011 {
        spec_disasm_store(w)
    } else if opcode == 0b0010011 {
        spec_disasm_op_imm(w)
    } else if opcode == 0b0110011 {
        spec_disasm_op(w)
    } else if w == 0x00000073 {
        "ecall"@
    } else {
        "ebreak"@
    }
}

/// The error an invalid word reports: an unknown opcode names the opcode
/// byte, a known family with bad function fields names the whole word.
pub open spec fn spec_disasm_error(w: Word) -> DisasmError {
    let opcode = w & 0x7F;
    if opcode == 0b0110111 || opcode == 0b0010111 || opcode == 0b1101111 || opcode == 0b1100111
        || opcode == 0b1100011 || opcode == 0b0000011 || opcode == 0b0100011 || opcode
        == 0b0010011 || opcode == 0b0110011 || opcode == 0b1110011 {
        DisasmError::InvalidInstruction(w)
    } else {
        DisasmError::UnknownOpcode(opcode as u8)
    }
}

/// Disassemble a single instruction word.
pub fn disassemble(word: Word) -> (r: Result<String, DisasmError>)
    ensures
        match r {
            Ok(s) => spec_disasm_valid(word) && s@ == spec_disasm_text(word),
            Err(e) => !spec_disasm_valid(word) && e == spec_disasm_error(word),
        },
{
    let inst = Instruction::new(word);
    let opcode = inst.opcode();
    if opcode == 0b0110111 {
        disasm_lui(&inst)
    } else if opcode == 0b0010111 {
        disasm_auipc(&inst)
    } else if opcode == 0b1101111 {
        disasm_jal(&inst)
    } else if opcode == 0b1100111 {
        disasm_jalr(&inst)
    } else if opcode == 0b1100011 {
        disasm_branch(&inst)
    } else if opcode == 0b0000011 {
        disasm_load(&inst)
    } else if opcode == 0b0100011 {
        disasm_store(&inst)
    } else if opcode == 0b0010011 {
        disasm_op_imm(&inst)
    } else if opcode == 0b0110011 {
        disasm_op(&inst)
    } else if opcode == 0b1110011 {
        disasm_system(&inst)
    } else {
        Err(DisasmError::UnknownOpcode(opcode))
    }
}

/// Render a LUI instruction.
pub fn disasm_lui(inst: &Instruction) -> (r: Result<String, DisasmError>)
    ensures
        r matches Ok(s) && s@ == spec_disasm_lui(inst.raw),
{
    let rd = inst.rd();
    let mut s = "lui ".to_owned();
    let rn = reg_name(rd);
    s.append(rn.as_str());
    s.append(", 0x");
    let hx = u32_to_hex(inst.raw >> 12);
    s.append(hx.as_str());
    proof {
        assert(s@ =~= spec_disasm_lui(inst.raw));
    }
    Ok(s)
}

/// Render an AUIPC instruction.
pub fn disasm_auipc(inst: &Instruction) -> (r: Result<String, DisasmError>)
    ensures
        r matches Ok(s) && s@ == spec_disasm_auipc(inst.raw),
{
    let rd = inst.rd();
    let mut s = "auipc ".to_owned();
    let rn = reg_name(rd);
    s.append(rn.as_str());
    s.append(", 0x");
    let hx = u32_to_hex(inst.raw >> 12);
    s.append(hx.as_str());
    proof {
        assert(s@ =~= spec_disasm_auipc(inst.raw));
    }
    Ok(s)
}

/// Render a JAL instruction.
pub fn disasm_jal(inst: &Instruction) -> (r: Result<String, DisasmError>)
    ensures
        r matches Ok(s) && s@ == spec_disasm_jal(inst.raw),
{
    let rd = inst.rd();
    let imm = inst.imm_j();
    let mut s = "jal ".to_owned();
    let rn = reg_name(rd);
    s.append(rn.as_str());
    s.append(", ");
    let d = i32_to_dec(imm);
    s.append(d.as_str());
    proof {
        assert(s@ =~= spec_disasm_jal(inst.raw));
    }
    Ok(s)
}

/// Render a JALR instruction.
pub fn disasm_jalr(inst: &Instruction) -> (r: Result<String, DisasmError>)
    ensures
        r matches Ok(s) && s@ == spec_disasm_jalr(inst.raw),
{
    let rd = inst.rd();
    let rs1 = inst.rs1();
    let imm = inst.imm_i();
    let mut s = "jalr ".to_owned();
    let rn = reg_name(rd);
    s.append(rn.as_str());
    s.append(", ");
    let d = i32_to_dec(imm);
    s.append(d.as_str());
    s.append("(");
    let rn1 = reg_name(rs1);
    s.append(rn1.as_str());
    s.append(")");
    proof {
        assert(s@ =~= spec_disasm_jalr(inst.raw));
    }
    Ok(s)
}

/// Render a branch instruction; funct3 values without a branch condition
/// are invalid.
pub fn disasm_branch(inst: &Instruction) -> (r: Result<String, DisasmError>)
    ensures
        match r {
            Ok(s) => spec_branch_mnemonic(((inst.raw >> 12) & 0x7) as u8).len() > 0 && s@
                == spec_disasm_branch(inst.raw),
            Err(e) => spec_branch_mnemonic(((inst.raw >> 12) & 0x7) as u8).len() == 0 && e
                == DisasmError::InvalidInstruction(inst.raw),
        },
{
    let rs1 = inst.rs1();
    let rs2 = inst.rs2();
    let imm = inst.imm_b();
    let funct3 = inst.funct3();
    let mnemonic: &str = if funct3 == 0b000 {
        "beq"
    } else if funct3 == 0b001 {
        "bne"
    } else if funct3 == 0b100 {
        "blt"
    } else if funct3 == 0b101 {
        "bge"
    } else if funct3 == 0b110 {
        "bltu"
    } else if funct3 == 0b111 {
        "bgeu"
    } else {
        return Err(DisasmError::InvalidInstruction(inst.raw));
    };
    proof {
        reveal_strlit("beq");
        reveal_strlit("bne");
        reveal_strlit("blt");
        reveal_strlit("bge");
        reveal_strlit("bltu");
        reveal_strlit("bgeu");
    }
    let mut s = mnemonic.to_owned();
    s.append(" ");
    let rn1 = reg_name(rs1);
    s.append(rn1.as_str());
    s.append(", ");
    let rn2 = reg_name(rs2);
    s.append(rn2.as_str());
    s.append(", ");
    let d = i32_to_dec(imm);
    s.append(d.as_str());
    proof {
        assert(s@ =~= spec_disasm_branch(inst.raw));
    }
    Ok(s)
}

/// Render a load instruction; funct3 values without a load width are
/// invalid.
pub fn disasm_load(inst: &Instruction) -> (r: Result<String, DisasmError>)
    ensures
        match r {
            Ok(s) => spec_load_mnemonic(((inst.raw >> 12) & 0x7) as u8).len() > 0 && s@
                == spec_disasm_load(inst.raw),
            Err(e) => spec_load_mnemonic(((inst.raw >> 12) & 0x7) as u8).len() == 0 && e
                == DisasmError::InvalidInstruction(inst.raw),
        },
{
    let rd = inst.rd();
    let rs1 = inst.rs1();
    let imm = inst.imm_i();
    let funct3 = inst.funct3();
    let mnemonic: &str = if funct3 == 0b000 {
        "lb"
    } else if funct3 == 0b001 {
        "lh"
    } else if funct3 == 0b010 {
        "lw"
    } else if funct3 == 0b100 {
        "lbu"
    } else if funct3 == 0b101 {
        "lhu"
    } else {
        return Err(DisasmError::InvalidInstruction(inst.raw));
    };
    proof {
        reveal_strlit("lb");
        reveal_strlit("lh");
        reveal_strlit("lw");
        reveal_strlit("lbu");
        reveal_strlit("lhu");
    }
    let mut s = mnemonic.to_owned();
    s.append(" ");
    let rn = reg_name(rd);
    s.append(rn.as_str());
    s.append(", ");
    let d = i32_to_dec(imm);
    s.append(d.as_str());
    s.append("(");
    let rn1 = reg_name(rs1);
    s.append(rn1.as_str());
    s.append(")");
    proof {
        assert(s@ =~= spec_disasm_load(inst.raw));
    }
    Ok(s)
}

/// Render a store instruction; funct3 values without a store width are
/// invalid.
pub fn disasm_store(inst: &Instruction) -> (r: Result<String, DisasmError>)
    ensures
        match r {
            Ok(s) => spec_store_mnemonic(((inst.raw >> 12) & 0x7) as u8).len() > 0 && s@
                == spec_disasm_store(inst.raw),
            Err(e) => spec_store_mnemonic(((inst.raw >> 12) & 0x7) as u8).len() == 0 && e
                == DisasmError::InvalidInstruction(inst.raw),
        },
{
    let rs1 = inst.rs1();
    let rs2 = inst.rs2();
    let imm = inst.imm_s();
    let funct3 = inst.funct3();
    let mnemonic: &str = if funct3 == 0b000 {
        "sb"
    } else if funct3 == 0b001 {
        "sh"
    } else if funct3 == 0b010 {
        "sw"
    } else {
        return Err(DisasmError::InvalidInstruction(inst.raw));
    };
    proof {
        reveal_strlit("sb");
        reveal_strlit("sh");
        reveal_strlit("sw");
    }
    let mut s = mnemonic.to_owned();
    s.append(" ");
    let rn2 = reg_name(rs2);
    s.append(rn2.as_str());
    s.append(", ");
    let d = i32_to_dec(imm);
    s.append(d.as_str());
    s.append("(");
    let rn1 = reg_name(rs1);
    s.append(rn1.as_str());
    s.append(")");
    proof {
        assert(s@ =~= spec_disasm_store(inst.raw));
    }
    Ok(s)
}

/// Render an OP-IMM instruction; every funct3 selects one.
pub fn disasm_op_imm(inst: &Instruction) -> (r: Result<String, DisasmError>)
    ensures
        r matches Ok(s) && s@ == spec_disasm_op_imm(inst.raw),
{
    let rd = inst.rd();
    let rs1 = inst.rs1();
    let imm = inst.imm_i();
    let funct3 = inst.funct3();
    let mnemonic: &str = if funct3 == 0b000 {
        "addi"
    } else if funct3 == 0b010 {
        "slti"
    } else if funct3 == 0b011 {
        "sltiu"
    } else if funct3 == 0b100 {
        "xori"
    } else if funct3 == 0b110 {
        "ori"
    } else if funct3 == 0b111 {
        "andi"
    } else if funct3 == 0b001 {
        "slli"
    } else {
        if inst.funct7() & 0x20 != 0 {
            "srai"
        } else {
            "srli"
        }
    };
    let mut s = mnemonic.to_owned();
    s.append(" ");
    let rn = reg_name(rd);
    s.append(rn.as_str());
    s.append(", ");
    let rn1 = reg_name(rs1);
    s.append(rn1.as_str());
    s.append(", ");
    let d = i32_to_dec(imm);
    s.append(d.as_str());
    proof {
        assert(s@ =~= spec_disasm_op_imm(inst.raw));
    }
    Ok(s)
}

/// Render an OP instruction; add/sub and the right shifts demand an exact
/// funct7.
pub fn disasm_op(inst: &Instruction) -> (r: Result<String, DisasmError>)
    ensures
        match r {
            Ok(s) => spec_op_valid(((inst.raw >> 12) & 0x7) as u8, (inst.raw >> 25) as u8) && s@
                == spec_disasm_op(inst.raw),
            Err(e) => !spec_op_valid(((inst.raw >> 12) & 0x7) as u8, (inst.raw >> 25) as u8) && e
                == DisasmError::InvalidInstruction(inst.raw),
        },
{
    let rd = inst.rd();
    let rs1 = inst.rs1();
    let rs2 = inst.rs2();
    let funct3 = inst.funct3();
    let funct7 = inst.funct7();
    let mnemonic: &str = if funct3 == 0b000 && funct7 == 0b0000000 {
        "add"
    } else if funct3 == 0b000 && funct7 == 0b0100000 {
        "sub"
    } else if funct3 == 0b001 {
        "sll"
    } else if funct3 == 0b010 {
        "slt"
    } else if funct3 == 0b011 {
        "sltu"
    } else if funct3 == 0b100 {
        "xor"
    } else if funct3 == 0b101 && funct7 == 0b0000000 {
        "srl"
    } else if funct3 == 0b101 && funct7 == 0b0100000 {
        "sra"
    } else if funct3 == 0b110 {
        "or"
    } else if funct3 == 0b111 {
        "and"
    } else {
        return Err(DisasmError::InvalidInstruction(inst.raw));
    };
    let mut s = mnemonic.to_owned();
    s.append(" ");
    let rn = reg_name(rd);
    s.append(rn.as_str());
    s.append(", ");
    let rn1 = reg_name(rs1);
    s.append(rn1.as_str());
    s.append(", ");
    let rn2 = reg_name(rs2);
    s.append(rn2.as_str());
    proof {
        assert(s@ =~= spec_disasm_op(inst.raw));
    }
    Ok(s)
}

/// Render a SYSTEM instruction: only the canonical ECALL and EBREAK words
/// exist.
pub fn disasm_system(inst: &Instruction) -> (r: Result<String, DisasmError>)
    ensures
        match r {
            Ok(s) => (inst.raw == 0x00000073 || inst.raw == 0x00100073) && s@ == (if inst.raw
                == 0x00000073 {
                "ecall"@
            } else {
                "ebreak"@
            }),
            Err(e) => inst.raw != 0x00000073 && inst.raw != 0x00100073 && e
                == DisasmError::InvalidInstruction(inst.raw),
        },
{
    if inst.raw == 0x00000073 {
        Ok("ecall".to_owned())
    } else if inst.raw == 0x00100073 {
        Ok("ebreak".to_owned())
    } else {
        Err(DisasmError::InvalidInstruction(inst.raw))
    }
}

} // verus!
