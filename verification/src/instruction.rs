//! RV32I instruction words: bit-field extraction and the inverse encoders.
//!
//! An [`Instruction`] is an immutable 32-bit word; every field (opcode,
//! registers, function codes, and the five immediate layouts) is computed on
//! demand, never stored separately.  [`InstructionEncoder`] builds words from
//! fields and is proved to be the mutual inverse of the extraction.

use vstd::prelude::*;

verus! {

/// A 32-bit machine word.
pub type Word = u32;

/// A byte address.
pub type Addr = u32;

/// The 32-bit word an arbitrary integer wraps to, modulo 2^32.
pub open spec fn wrap32(x: int) -> Word {
    (((x % 0x1_0000_0000) + 0x1_0000_0000) % 0x1_0000_0000) as Word
}

/// Two's-complement reading of a 32-bit word.
pub open spec fn signed32(w: u32) -> int {
    if w >= 0x8000_0000 {
        w - 0x1_0000_0000
    } else {
        w as int
    }
}

/// Sign-extended value of the I-format immediate: bits 31:20.
pub open spec fn spec_imm_i(w: u32) -> int {
    if w >> 31 == 1 {
        (w >> 20) - 0x1000
    } else {
        (w >> 20) as int
    }
}

/// Sign-extended value of the S-format immediate: bits {31:25, 11:7}.
pub open spec fn spec_imm_s(w: u32) -> int {
    if w >> 31 == 1 {
        (((w >> 25) << 5) | ((w >> 7) & 0x1F)) - 0x1000
    } else {
        (((w >> 25) << 5) | ((w >> 7) & 0x1F)) as int
    }
}

/// Sign-extended value of the B-format immediate: bits {31, 7, 30:25, 11:8}
/// scaled by two, so bit 0 of the value is always zero.
pub open spec fn spec_imm_b(w: u32) -> int {
    if w >> 31 == 1 {
        ((((w >> 31) & 1) << 12) | (((w >> 7) & 1) << 11) | (((w >> 25) & 0x3F) << 5) | (((w
            >> 8) & 0xF) << 1)) - 0x2000
    } else {
        ((((w >> 31) & 1) << 12) | (((w >> 7) & 1) << 11) | (((w >> 25) & 0x3F) << 5) | (((w
            >> 8) & 0xF) << 1)) as int
    }
}

/// Value of the U-format immediate: bits 31:12 in place, read as signed.
pub open spec fn spec_imm_u(w: u32) -> int {
    signed32(w & 0xFFFF_F000)
}

/// Sign-extended value of the J-format immediate: bits {31, 19:12, 20, 30:21}
/// scaled by two, so bit 0 of the value is always zero.
pub open spec fn spec_imm_j(w: u32) -> int {
    if w >> 31 == 1 {
        ((((w >> 31) & 1) << 20) | (((w >> 12) & 0xFF) << 12) | (((w >> 20) & 1) << 11) | (((w
            >> 21) & 0x3FF) << 1)) - 0x20_0000
    } else {
        ((((w >> 31) & 1) << 20) | (((w >> 12) & 0xFF) << 12) | (((w >> 20) & 1) << 11) | (((w
            >> 21) & 0x3FF) << 1)) as int
    }
}

/// One RV32I instruction, stored as the raw 32-bit word.
#[derive(Clone, Copy, Debug, PartialEq, Eq, Structural)]
pub struct Instruction {
    pub raw: Word,
}

impl Instruction {
    pub fn new(raw: Word) -> (inst: Instruction)
        ensures
            inst.raw == raw,
    {
        Instruction { raw }
    }

    /// Opcode: bits 6:0.
    pub fn opcode(&self) -> (r: u8)
        ensures
            r == self.raw & 0x7F,
            r < 0x80,
    {
        proof {
            lemma_field_bounds(self.raw);
        }
        (self.raw & 0x7F) as u8
    }

    /// Destination register: bits 11:7.
    pub fn rd(&self) -> (r: u8)
        ensures
            r == (self.raw >> 7) & 0x1F,
            r < 32,
    {
        proof {
            lemma_field_bounds(self.raw);
        }
        ((self.raw >> 7) & 0x1F) as u8
    }

    /// First source register: bits 19:15.
    pub fn rs1(&self) -> (r: u8)
        ensures
            r == (self.raw >> 15) & 0x1F,
            r < 32,
    {
        proof {
            lemma_field_bounds(self.raw);
        }
        ((self.raw >> 15) & 0x1F) as u8
    }

    /// Second source register: bits 24:20.
    pub fn rs2(&self) -> (r: u8)
        ensures
            r == (self.raw >> 20) & 0x1F,
            r < 32,
    {
        proof {
            lemma_field_bounds(self.raw);
        }
        ((self.raw >> 20) & 0x1F) as u8
    }

    /// Minor function code: bits 14:12.
    pub fn funct3(&self) -> (r: u8)
        ensures
            r == (self.raw >> 12) & 0x7,
            r < 8,
    {
        proof {
            lemma_field_bounds(self.raw);
        }
        ((self.raw >> 12) & 0x7) as u8
    }

    /// Major function code: bits 31:25.
    pub fn funct7(&self) -> (r: u8)
        ensures
            r == self.raw >> 25,
            r < 0x80,
    {
        proof {
            lemma_field_bounds(self.raw);
        }
        (self.raw >> 25) as u8
    }

    /// I-format immediate (arithmetic, loads, JALR), sign-extended.
    pub fn imm_i(&self) -> (r: i32)
        ensures
            r == spec_imm_i(self.raw),
    {
        proof {
            lemma_imm_i(self.raw);
        }
        (self.raw as i32) >> 20
    }

    /// S-format immediate (stores), sign-extended.
    pub fn imm_s(&self) -> (r: i32)
        ensures
            r == spec_imm_s(self.raw),
    {
        proof {
            lemma_imm_s(self.raw);
        }
        (((self.raw & 0xFE00_0000) as i32) >> 20) | (((self.raw >> 7) & 0x1F) as i32)
    }

    /// B-format immediate (branches), sign-extended, bit 0 always zero.
    pub fn imm_b(&self) -> (r: i32)
        ensures
            r == spec_imm_b(self.raw),
            r % 2 == 0,
    {
        proof {
            lemma_imm_b(self.raw);
        }
        (((self.raw & 0x8000_0000) as i32) >> 19) | ((((self.raw >> 7) & 1) as i32) << 11) | ((((
        self.raw >> 25) & 0x3F) as i32) << 5) | ((((self.raw >> 8) & 0xF) as i32) << 1)
    }

    /// U-format immediate (LUI, AUIPC): bits 31:12 kept in place.
    pub fn imm_u(&self) -> (r: i32)
        ensures
            r == spec_imm_u(self.raw),
    {
        proof {
            lemma_imm_u(self.raw);
        }
        (self.raw & 0xFFFF_F000) as i32
    }

    /// J-format immediate (JAL), sign-extended, bit 0 always zero.
    pub fn imm_j(&self) -> (r: i32)
        ensures
            r == spec_imm_j(self.raw),
            r % 2 == 0,
    {
        proof {
            lemma_imm_j(self.raw);
        }
        (((self.raw & 0x8000_0000) as i32) >> 11) | ((self.raw & 0xF_F000) as i32) | ((((self.raw
        >> 20) & 1) as i32) << 11) | ((((self.raw >> 21) & 0x3FF) as i32) << 1)
    }
}

pub proof fn lemma_field_bounds(w: u32)
    by (bit_vector)
    ensures
        w & 0x7F < 0x80,
        (w >> 7) & 0x1F < 32,
        (w >> 15) & 0x1F < 32,
        (w >> 20) & 0x1F < 32,
        (w >> 12) & 0x7 < 8,
        w >> 25 < 0x80,
{
}

proof fn lemma_imm_i(w: u32)
    by (bit_vector)
    ensures
        ((w as i32) >> 20) as int == spec_imm_i(w),
{
}

proof fn lemma_imm_s(w: u32)
    by (bit_vector)
    ensures
        ((((w & 0xFE00_0000) as i32) >> 20) | (((w >> 7) & 0x1F) as i32)) as int == spec_imm_s(w),
{
}

proof fn lemma_imm_b(w: u32)
    by (bit_vector)
    ensures
        ((((w & 0x8000_0000) as i32) >> 19) | ((((w >> 7) & 1) as i32) << 11) | ((((w >> 25)
            & 0x3F) as i32) << 5) | ((((w >> 8) & 0xF) as i32) << 1)) as int == spec_imm_b(w),
        spec_imm_b(w) % 2 == 0,
{
}

proof fn lemma_imm_u(w: u32)
    by (bit_vector)
    ensures
        ((w & 0xFFFF_F000) as i32) as int == spec_imm_u(w),
{
}

proof fn lemma_imm_j(w: u32)
    by (bit_vector)
    ensures
        ((((w & 0x8000_0000) as i32) >> 11) | ((w & 0xF_F000) as i32) | ((((w >> 20)
            & 1) as i32) << 11) | ((((w >> 21) & 0x3FF) as i32) << 1)) as int == spec_imm_j(w),
        spec_imm_j(w) % 2 == 0,
{
}


/// R-format packing: {funct7, rs2, rs1, funct3, rd, opcode}.
pub open spec fn spec_encode_r(opcode: u8, rd: u8, funct3: u8, rs1: u8, rs2: u8, funct7: u8) -> Word {
    (((funct7 & 0x7F) as u32) << 25) | (((rs2 & 0x1F) as u32) << 20) | (((rs1 & 0x1F) as u32)
        << 15) | (((funct3 & 0x7) as u32) << 12) | (((rd & 0x1F) as u32) << 7) | ((opcode
        & 0x7F) as u32)
}

/// I-format packing: {imm[11:0], rs1, funct3, rd, opcode}.
pub open spec fn spec_encode_i(opcode: u8, rd: u8, funct3: u8, rs1: u8, imm: i32) -> Word {
    (((imm as u32) & 0xFFF) << 20) | (((rs1 & 0x1F) as u32) << 15) | (((funct3 & 0x7) as u32)
        << 12) | (((rd & 0x1F) as u32) << 7) | ((opcode & 0x7F) as u32)
}

/// S-format packing: {imm[11:5], rs2, rs1, funct3, imm[4:0], opcode}.
pub open spec fn spec_encode_s(opcode: u8, funct3: u8, rs1: u8, rs2: u8, imm: i32) -> Word {
    ((((imm as u32) >> 5) & 0x7F) << 25) | (((rs2 & 0x1F) as u32) << 20) | (((rs1
        & 0x1F) as u32) << 15) | (((funct3 & 0x7) as u32) << 12) | (((imm as u32) & 0x1F) << 7)
        | ((opcode & 0x7F) as u32)
}

/// B-format packing: {imm[12], imm[10:5], rs2, rs1, funct3, imm[4:1], imm[11], opcode}.
pub open spec fn spec_encode_b(opcode: u8, funct3: u8, rs1: u8, rs2: u8, imm: i32) -> Word {
    ((((imm as u32) >> 12) & 1) << 31) | ((((imm as u32) >> 5) & 0x3F) << 25) | (((rs2
        & 0x1F) as u32) << 20) | (((rs1 & 0x1F) as u32) << 15) | (((funct3 & 0x7) as u32) << 12)
        | ((((imm as u32) >> 1) & 0xF) << 8) | ((((imm as u32) >> 11) & 1) << 7) | ((opcode
        & 0x7F) as u32)
}

/// U-format packing: {imm[31:12], rd, opcode}.
pub open spec fn spec_encode_u(opcode: u8, rd: u8, imm: i32) -> Word {
    ((imm as u32) & 0xFFFF_F000) | (((rd & 0x1F) as u32) << 7) | ((opcode & 0x7F) as u32)
}

/// J-format packing: {imm[20], imm[10:1], imm[11], imm[19:12], rd, opcode}.
pub open spec fn spec_encode_j(opcode: u8, rd: u8, imm: i32) -> Word {
    ((((imm as u32) >> 20) & 1) << 31) | ((((imm as u32) >> 1) & 0x3FF) << 21) | ((((imm as u32)
        >> 11) & 1) << 20) | ((((imm as u32) >> 12) & 0xFF) << 12) | (((rd & 0x1F) as u32) << 7)
        | ((opcode & 0x7F) as u32)
}

/// Builds correctly bit-packed instruction words from their fields: the
/// mirror image of the field extraction above.
pub struct InstructionEncoder;

impl InstructionEncoder {
    /// R-format: {funct7, rs2, rs1, funct3, rd, opcode}.
    pub fn r_type(opcode: u8, rd: u8, funct3: u8, rs1: u8, rs2: u8, funct7: u8) -> (w: Word)
        ensures
            w == spec_encode_r(opcode, rd, funct3, rs1, rs2, funct7),
    {
        (((funct7 & 0x7F) as u32) << 25) | (((rs2 & 0x1F) as u32) << 20) | (((rs1
            & 0x1F) as u32) << 15) | (((funct3 & 0x7) as u32) << 12) | (((rd & 0x1F) as u32) << 7)
            | ((opcode & 0x7F) as u32)
    }

    /// I-format: {imm[11:0], rs1, funct3, rd, opcode}.
    pub fn i_type(opcode: u8, rd: u8, funct3: u8, rs1: u8, imm: i32) -> (w: Word)
        ensures
            w == spec_encode_i(opcode, rd, funct3, rs1, imm),
    {
        (((imm as u32) & 0xFFF) << 20) | (((rs1 & 0x1F) as u32) << 15) | (((funct3
            & 0x7) as u32) << 12) | (((rd & 0x1F) as u32) << 7) | ((opcode & 0x7F) as u32)
    }

    /// S-format: {imm[11:5], rs2, rs1, funct3, imm[4:0], opcode}.
    pub fn s_type(opcode: u8, funct3: u8, rs1: u8, rs2: u8, imm: i32) -> (w: Word)
        ensures
            w == spec_encode_s(opcode, funct3, rs1, rs2, imm),
    {
        ((((imm as u32) >> 5) & 0x7F) << 25) | (((rs2 & 0x1F) as u32) << 20) | (((rs1
            & 0x1F) as u32) << 15) | (((funct3 & 0x7) as u32) << 12) | (((imm as u32) & 0x1F) << 7)
            | ((opcode & 0x7F) as u32)
    }

    /// B-format: {imm[12], imm[10:5], rs2, rs1, funct3, imm[4:1], imm[11], opcode}.
    pub fn b_type(opcode: u8, funct3: u8, rs1: u8, rs2: u8, imm: i32) -> (w: Word)
        ensures
            w == spec_encode_b(opcode, funct3, rs1, rs2, imm),
    {
        ((((imm as u32) >> 12) & 1) << 31) | ((((imm as u32) >> 5) & 0x3F) << 25) | (((rs2
            & 0x1F) as u32) << 20) | (((rs1 & 0x1F) as u32) << 15) | (((funct3
            & 0x7) as u32) << 12) | ((((imm as u32) >> 1) & 0xF) << 8) | ((((imm as u32) >> 11)
            & 1) << 7) | ((opcode & 0x7F) as u32)
    }

    /// U-format: {imm[31:12], rd, opcode}.
    pub fn u_type(opcode: u8, rd: u8, imm: i32) -> (w: Word)
        ensures
            w == spec_encode_u(opcode, rd, imm),
    {
        ((imm as u32) & 0xFFFF_F000) | (((rd & 0x1F) as u32) << 7) | ((opcode & 0x7F) as u32)
    }

    /// J-format: {imm[20], imm[10:1], imm[11], imm[19:12], rd, opcode}.
    pub fn j_type(opcode: u8, rd: u8, imm: i32) -> (w: Word)
        ensures
            w == spec_encode_j(opcode, rd, imm),
    {
        ((((imm as u32) >> 20) & 1) << 31) | ((((imm as u32) >> 1) & 0x3FF) << 21) | ((((
        imm as u32) >> 11) & 1) << 20) | ((((imm as u32) >> 12) & 0xFF) << 12) | (((rd
            & 0x1F) as u32) << 7) | ((opcode & 0x7F) as u32)
    }
}


/// Encoding after decoding is the identity: for every 32-bit word, packing
/// the extracted R-format fields reproduces the word exactly.
pub proof fn lemma_r_format_round_trip(w: Word)
    by (bit_vector)
    ensures
        spec_encode_r(
            (w & 0x7F) as u8,
            ((w >> 7) & 0x1F) as u8,
            ((w >> 12) & 0x7) as u8,
            ((w >> 15) & 0x1F) as u8,
            ((w >> 20) & 0x1F) as u8,
            (w >> 25) as u8,
        ) == w,
{
}

/// Encoding after decoding is the identity: for every 32-bit word, packing
/// the extracted I-format fields and immediate reproduces the word exactly.
pub proof fn lemma_i_format_round_trip(w: Word)
    by (bit_vector)
    ensures
        spec_encode_i(
            (w & 0x7F) as u8,
            ((w >> 7) & 0x1F) as u8,
            ((w >> 12) & 0x7) as u8,
            ((w >> 15) & 0x1F) as u8,
            spec_imm_i(w) as i32,
        ) == w,
{
}

/// Encoding after decoding is the identity: for every 32-bit word, packing
/// the extracted S-format fields and immediate reproduces the word exactly.
pub proof fn lemma_s_format_round_trip(w: Word)
    by (bit_vector)
    ensures
        spec_encode_s(
            (w & 0x7F) as u8,
            ((w >> 12) & 0x7) as u8,
            ((w >> 15) & 0x1F) as u8,
            ((w >> 20) & 0x1F) as u8,
            spec_imm_s(w) as i32,
        ) == w,
{
}

/// Encoding after decoding is the identity: for every 32-bit word, packing
/// the extracted B-format fields and immediate reproduces the word exactly.
pub proof fn lemma_b_format_round_trip(w: Word)
    by (bit_vector)
    ensures
        spec_encode_b(
            (w & 0x7F) as u8,
            ((w >> 12) & 0x7) as u8,
            ((w >> 15) & 0x1F) as u8,
            ((w >> 20) & 0x1F) as u8,
            spec_imm_b(w) as i32,
        ) == w,
{
}

/// Encoding after decoding is the identity: for every 32-bit word, packing
/// the extracted U-format fields and immediate reproduces the word exactly.
pub proof fn lemma_u_format_round_trip(w: Word)
    by (bit_vector)
    ensures
        spec_encode_u((w & 0x7F) as u8, ((w >> 7) & 0x1F) as u8, spec_imm_u(w) as i32) == w,
{
}

/// Encoding after decoding is the identity: for every 32-bit word, packing
/// the extracted J-format fields and immediate reproduces the word exactly.
pub proof fn lemma_j_format_round_trip(w: Word)
    by (bit_vector)
    ensures
        spec_encode_j((w & 0x7F) as u8, ((w >> 7) & 0x1F) as u8, spec_imm_j(w) as i32) == w,
{
}

/// Decoding after encoding recovers the fields: an R-format word built from
/// in-range fields yields them back unchanged.
pub proof fn lemma_r_format_fields(opcode: u8, rd: u8, funct3: u8, rs1: u8, rs2: u8, funct7: u8)
    by (bit_vector)
    requires
        opcode < 0x80,
        rd < 32,
        funct3 < 8,
        rs1 < 32,
        rs2 < 32,
        funct7 < 0x80,
    ensures
        ({
            let w = spec_encode_r(opcode, rd, funct3, rs1, rs2, funct7);
            w & 0x7F == opcode && (w >> 7) & 0x1F == rd && (w >> 12) & 0x7 == funct3 && (w >> 15)
                & 0x1F == rs1 && (w >> 20) & 0x1F == rs2 && w >> 25 == funct7
        }),
{
}

/// Decoding after encoding recovers the fields: an I-format word built from
/// in-range fields and immediate yields them back unchanged.
pub proof fn lemma_i_format_fields(opcode: u8, rd: u8, funct3: u8, rs1: u8, imm: i32)
    by (bit_vector)
    requires
        opcode < 0x80,
        rd < 32,
        funct3 < 8,
        rs1 < 32,
        -2048 <= imm < 2048,
    ensures
        ({
            let w = spec_encode_i(opcode, rd, funct3, rs1, imm);
            w & 0x7F == opcode && (w >> 7) & 0x1F == rd && (w >> 12) & 0x7 == funct3 && (w >> 15)
                & 0x1F == rs1 && spec_imm_i(w) == imm
        }),
{
}

/// Decoding after encoding recovers the fields: an S-format word built from
/// in-range fields and immediate yields them back unchanged.
pub proof fn lemma_s_format_fields(opcode: u8, funct3: u8, rs1: u8, rs2: u8, imm: i32)
    by (bit_vector)
    requires
        opcode < 0x80,
        funct3 < 8,
        rs1 < 32,
        rs2 < 32,
        -2048 <= imm < 2048,
    ensures
        ({
            let w = spec_encode_s(opcode, funct3, rs1, rs2, imm);
            w & 0x7F == opcode && (w >> 12) & 0x7 == funct3 && (w >> 15) & 0x1F == rs1 && (w
                >> 20) & 0x1F == rs2 && spec_imm_s(w) == imm
        }),
{
}

/// Decoding after encoding recovers the fields: a B-format word built from
/// in-range fields and an even immediate yields them back unchanged.
pub proof fn lemma_b_format_fields(opcode: u8, funct3: u8, rs1: u8, rs2: u8, imm: i32)
    by (bit_vector)
    requires
        opcode < 0x80,
        funct3 < 8,
        rs1 < 32,
        rs2 < 32,
        -4096 <= imm < 4096,
        imm % 2 == 0,
    ensures
        ({
            let w = spec_encode_b(opcode, funct3, rs1, rs2, imm);
            w & 0x7F == opcode && (w >> 12) & 0x7 == funct3 && (w >> 15) & 0x1F == rs1 && (w
                >> 20) & 0x1F == rs2 && spec_imm_b(w) == imm
        }),
{
}

/// Decoding after encoding recovers the fields: a U-format word built from
/// in-range fields and a 4096-aligned immediate yields them back unchanged.
pub proof fn lemma_u_format_fields(opcode: u8, rd: u8, imm: i32)
    by (bit_vector)
    requires
        opcode < 0x80,
        rd < 32,
        (imm as u32) & 0xFFF == 0,
    ensures
        ({
            let w = spec_encode_u(opcode, rd, imm);
            w & 0x7F == opcode && (w >> 7) & 0x1F == rd && spec_imm_u(w) == imm
        }),
{
}

/// Decoding after encoding recovers the fields: a J-format word built from
/// in-range fields and an even immediate yields them back unchanged.
pub proof fn lemma_j_format_fields(opcode: u8, rd: u8, imm: i32)
    by (bit_vector)
    requires
        opcode < 0x80,
        rd < 32,
        -0x10_0000 <= imm < 0x10_0000,
        imm % 2 == 0,
    ensures
        ({
            let w = spec_encode_j(opcode, rd, imm);
            w & 0x7F == opcode && (w >> 7) & 0x1F == rd && spec_imm_j(w) == imm
        }),
{
}

} // verus!
