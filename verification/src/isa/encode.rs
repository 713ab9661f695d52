//! Encoding of instructions into 32-bit words, and the law that decoding an
//! encoded word gives the instruction back.
use vstd::prelude::*;

use super::creg::{spec_creg_code, Creg};
use super::decode::{spec_decode, spec_decode_creg};
use super::fields::{
    bc_offset14, bf_offset22, cond_of, i_imm16, i_mode, j_offset26, jr_func, m_offset15, m_size,
    m_sx, opcode_of, r2_func, r2_rd0, r_func, reg_high, reg_low, reg_mid, sext16, sign_extend,
    u_imm16, u_mode, x_payload, x_sysop,
};
use super::instruction::Instruction;

verus! {

/// Why an instruction cannot be encoded.
#[derive(Debug, Clone, Copy, PartialEq, Eq, Structural)]
pub enum EncodeError {
    /// An immediate or offset does not fit its field of `size` bits.
    InvalidImmediate { size: u8, value: u32 },
    /// A system-operation payload does not fit its 12-bit field.
    InvalidPayload(u32),
    /// A register number above 15.
    InvalidRegister(u8),
}

// ---------------------------------------------------------------------------
// Word layouts

pub open spec fn pack_r(op: u32, func: u32, rd: u32, ra: u32, rb: u32) -> u32 {
    (op << 26u32) | (func << 12u32) | (rd << 8u32) | (ra << 4u32) | rb
}

pub open spec fn pack_i(op: u32, mode: u32, rd: u32, ra: u32, imm: u32) -> u32 {
    (op << 26u32) | (mode << 24u32) | (imm << 8u32) | (rd << 4u32) | ra
}

pub open spec fn pack_r2(func: u32, rd0: u32, rd1: u32, ra: u32, rb: u32) -> u32 {
    (7u32 << 26u32) | (func << 16u32) | (rd0 << 12u32) | (rd1 << 8u32) | (ra << 4u32) | rb
}

pub open spec fn pack_u(mode: u32, rd: u32, imm: u32) -> u32 {
    (8u32 << 26u32) | (mode << 20u32) | (imm << 4u32) | rd
}

pub open spec fn pack_m(op: u32, sx: u32, size: u32, rd: u32, base: u32, offset: u32) -> u32 {
    (op << 26u32) | (sx << 25u32) | (size << 23u32) | (offset << 8u32) | (rd << 4u32) | base
}

pub open spec fn pack_bf(cond: u32, offset: u32) -> u32 {
    (11u32 << 26u32) | (cond << 22u32) | offset
}

pub open spec fn pack_bc(cond: u32, ra: u32, rb: u32, offset: u32) -> u32 {
    (12u32 << 26u32) | (cond << 22u32) | (offset << 8u32) | (ra << 4u32) | rb
}

pub open spec fn pack_j(op: u32, offset: u32) -> u32 {
    (op << 26u32) | offset
}

pub open spec fn pack_jr(func: u32, rd: u32, target: u32) -> u32 {
    (15u32 << 26u32) | (func << 8u32) | (rd << 4u32) | target
}

pub open spec fn pack_x(sysop: u32, payload: u32, rd: u32, rs: u32) -> u32 {
    (sysop << 20u32) | (payload << 8u32) | (rd << 4u32) | rs
}

// ---------------------------------------------------------------------------
// Operand checks

/// A 32-bit pattern that is the sign extension of a 16-bit immediate.
pub open spec fn is_sext16(imm: u32) -> bool {
    imm <= 0x7FFF || imm >= 0xFFFF_8000
}

/// An arithmetic or compare immediate that encodes: any 16-bit field, or the
/// sign extension of one.
pub open spec fn imm16_encodable(imm: u32) -> bool {
    imm <= 0xFFFF || imm >= 0xFFFF_8000
}

/// The 16-bit field that holds a sign-extended immediate.
pub open spec fn low16(imm: u32) -> u32 {
    if imm <= 0xFFFF {
        imm
    } else {
        (imm - 0xFFFF_0000u32) as u32
    }
}

/// The `bits`-bit two's-complement field of `value`, or the error when it does not fit.
///
/// `half` is the weight of the field's sign bit.
pub open spec fn spec_signed_field(value: int, bits: u8, half: int, reported: u32) -> Result<u32, EncodeError> {
    if value < -half || value >= half {
        Err(EncodeError::InvalidImmediate { size: bits, value: reported })
    } else if value >= 0 {
        Ok(value as u32)
    } else {
        Ok((value + 2 * half) as u32)
    }
}

/// The field of a branch byte offset, stored as a word count of `bits` bits.
pub open spec fn spec_word_offset(byte_offset: i32, bits: u8, half: int) -> Result<u32, EncodeError> {
    if byte_offset % 4 != 0 {
        Err(EncodeError::InvalidImmediate { size: bits, value: byte_offset as u32 })
    } else {
        let words = byte_offset / 4;
        spec_signed_field(words, bits, half, words as u32)
    }
}

pub open spec fn spec_check_reg(reg: u8) -> Result<u32, EncodeError> {
    if reg > 15 {
        Err(EncodeError::InvalidRegister(reg))
    } else {
        Ok(reg as u32)
    }
}

// ---------------------------------------------------------------------------
// Per-format encoders

pub open spec fn spec_encode_r(op: u32, func: u32, rd: u8, ra: u8, rb: u8) -> Result<u32, EncodeError> {
    if rd > 15 {
        Err(EncodeError::InvalidRegister(rd))
    } else if ra > 15 {
        Err(EncodeError::InvalidRegister(ra))
    } else if rb > 15 {
        Err(EncodeError::InvalidRegister(rb))
    } else {
        Ok(pack_r(op, func, rd as u32, ra as u32, rb as u32))
    }
}

/// I-type: `signed` immediates must fit 16 bits or be sign extensions of 16 bits, the others must fit 16 bits.
pub open spec fn spec_encode_i(op: u32, mode: u32, rd: u8, ra: u8, imm: u32, signed: bool) -> Result<u32, EncodeError> {
    if rd > 15 {
        Err(EncodeError::InvalidRegister(rd))
    } else if ra > 15 {
        Err(EncodeError::InvalidRegister(ra))
    } else if (signed && !imm16_encodable(imm)) || (!signed && imm > 0xFFFF) {
        Err(EncodeError::InvalidImmediate { size: 16, value: imm })
    } else {
        Ok(pack_i(op, mode, rd as u32, ra as u32, low16(imm)))
    }
}

pub open spec fn spec_encode_r2(func: u32, rd0: u8, rd1: u8, ra: u8, rb: u8) -> Result<u32, EncodeError> {
    if rd0 > 15 {
        Err(EncodeError::InvalidRegister(rd0))
    } else if rd1 > 15 {
        Err(EncodeError::InvalidRegister(rd1))
    } else if ra > 15 {
        Err(EncodeError::InvalidRegister(ra))
    } else if rb > 15 {
        Err(EncodeError::InvalidRegister(rb))
    } else {
        Ok(pack_r2(func, rd0 as u32, rd1 as u32, ra as u32, rb as u32))
    }
}

pub open spec fn spec_encode_u(mode: u32, rd: u8, imm: u16) -> Result<u32, EncodeError> {
    if rd > 15 {
        Err(EncodeError::InvalidRegister(rd))
    } else {
        Ok(pack_u(mode, rd as u32, imm as u32))
    }
}

pub open spec fn spec_encode_m(op: u32, sx: u32, size: u32, rd: u8, base: u8, offset: i32) -> Result<u32, EncodeError> {
    if rd > 15 {
        Err(EncodeError::InvalidRegister(rd))
    } else if base > 15 {
        Err(EncodeError::InvalidRegister(base))
    } else {
        match spec_signed_field(offset as int, 15, 0x4000, offset as u32) {
            Err(e) => Err(e),
            Ok(field) => Ok(pack_m(op, sx, size, rd as u32, base as u32, field)),
        }
    }
}

pub open spec fn spec_encode_bf(cond: u32, offset: i32) -> Result<u32, EncodeError> {
    match spec_word_offset(offset, 22, 0x20_0000) {
        Err(e) => Err(e),
        Ok(field) => Ok(pack_bf(cond, field)),
    }
}

pub open spec fn spec_encode_bc(cond: u32, ra: u8, rb: u8, offset: i32) -> Result<u32, EncodeError> {
    if ra > 15 {
        Err(EncodeError::InvalidRegister(ra))
    } else if rb > 15 {
        Err(EncodeError::InvalidRegister(rb))
    } else {
        match spec_word_offset(offset, 14, 0x2000) {
            Err(e) => Err(e),
            Ok(field) => Ok(pack_bc(cond, ra as u32, rb as u32, field)),
        }
    }
}

pub open spec fn spec_encode_j(op: u32, offset: i32) -> Result<u32, EncodeError> {
    match spec_word_offset(offset, 26, 0x200_0000) {
        Err(e) => Err(e),
        Ok(field) => Ok(pack_j(op, field)),
    }
}

pub open spec fn spec_encode_jr(func: u32, rd: u8, target: u8) -> Result<u32, EncodeError> {
    if rd > 15 {
        Err(EncodeError::InvalidRegister(rd))
    } else if target > 15 {
        Err(EncodeError::InvalidRegister(target))
    } else {
        Ok(pack_jr(func, rd as u32, target as u32))
    }
}

pub open spec fn spec_encode_x(sysop: u32, payload: u32, rd: u8, rs: u8) -> Result<u32, EncodeError> {
    if rd > 15 {
        Err(EncodeError::InvalidRegister(rd))
    } else if rs > 15 {
        Err(EncodeError::InvalidRegister(rs))
    } else if payload > 0xFFF {
        Err(EncodeError::InvalidPayload(payload))
    } else {
        Ok(pack_x(sysop, payload, rd as u32, rs as u32))
    }
}

/// The word that encodes an instruction, or why it cannot be encoded.
pub open spec fn spec_encode(inst: Instruction) -> Result<u32, EncodeError> {
    match inst {
        Instruction::Nop => spec_encode_x(0, 0, 0, 0),
        Instruction::Halt => spec_encode_x(1, 0, 0, 0),
        Instruction::SoftwareTrap { imm } => spec_encode_x(2, imm, 0, 0),
        Instruction::SystemCall => spec_encode_x(3, 0, 0, 0),
        Instruction::IRet => spec_encode_x(4, 0, 0, 0),
        Instruction::EI => spec_encode_x(5, 0, 0, 0),
        Instruction::DI => spec_encode_x(6, 0, 0, 0),
        Instruction::RdPc { rd } => spec_encode_x(7, 0, rd, 0),
        Instruction::Mrs { creg4, rd } => spec_encode_x(8, spec_creg_code(creg4), rd, 0),
        Instruction::Msr { creg4, rs } => spec_encode_x(9, spec_creg_code(creg4), 0, rs),
        Instruction::Add { rd, ra, rb } => spec_encode_r(1, 0, rd, ra, rb),
        Instruction::Sub { rd, ra, rb } => spec_encode_r(1, 1, rd, ra, rb),
        Instruction::And { rd, ra, rb } => spec_encode_r(1, 2, rd, ra, rb),
        Instruction::Or { rd, ra, rb } => spec_encode_r(1, 3, rd, ra, rb),
        Instruction::Xor { rd, ra, rb } => spec_encode_r(1, 4, rd, ra, rb),
        Instruction::Not { rd, ra } => spec_encode_r(1, 5, rd, ra, 0),
        Instruction::Neg { rd, ra } => spec_encode_r(1, 6, rd, ra, 0),
        Instruction::Cmp { ra, rb } => spec_encode_r(1, 7, 0, ra, rb),
        Instruction::Addi { rd, ra, imm } => spec_encode_i(2, 0, rd, ra, imm, true),
        Instruction::Subi { rd, ra, imm } => spec_encode_i(2, 1, rd, ra, imm, true),
        Instruction::Cmpi { ra, imm } => spec_encode_i(2, 2, 0, ra, imm, true),
        Instruction::Andi { rd, ra, imm } => spec_encode_i(3, 0, rd, ra, imm, false),
        Instruction::Ori { rd, ra, imm } => spec_encode_i(3, 1, rd, ra, imm, false),
        Instruction::Xori { rd, ra, imm } => spec_encode_i(3, 2, rd, ra, imm, false),
        Instruction::Shl { rd, ra, rb } => spec_encode_r(4, 0, rd, ra, rb),
        Instruction::Shr { rd, ra, rb } => spec_encode_r(4, 1, rd, ra, rb),
        Instruction::Sar { rd, ra, rb } => spec_encode_r(4, 2, rd, ra, rb),
        Instruction::Shli { rd, ra, imm } => spec_encode_i(5, 0, rd, ra, imm as u32, false),
        Instruction::Shri { rd, ra, imm } => spec_encode_i(5, 1, rd, ra, imm as u32, false),
        Instruction::Sari { rd, ra, imm } => spec_encode_i(5, 2, rd, ra, imm as u32, false),
        Instruction::Btst { ra, imm } => spec_encode_i(6, 0, 0, ra, imm as u32, false),
        Instruction::Bset { rd, ra, imm } => spec_encode_i(6, 1, rd, ra, imm as u32, false),
        Instruction::Bclr { rd, ra, imm } => spec_encode_i(6, 2, rd, ra, imm as u32, false),
        Instruction::Btgl { rd, ra, imm } => spec_encode_i(6, 3, rd, ra, imm as u32, false),
        Instruction::Mul { rd0, rd1, ra, rb } => spec_encode_r2(0, rd0, rd1, ra, rb),
        Instruction::Mulu { rd0, rd1, ra, rb } => spec_encode_r2(1, rd0, rd1, ra, rb),
        Instruction::Div { rd0, rd1, ra, rb } => spec_encode_r2(2, rd0, rd1, ra, rb),
        Instruction::Divu { rd0, rd1, ra, rb } => spec_encode_r2(3, rd0, rd1, ra, rb),
        Instruction::Lui { rd, imm16 } => spec_encode_u(0, rd, imm16),
        Instruction::Lli { rd, imm16 } => spec_encode_u(1, rd, imm16),
        Instruction::Lhi { rd, imm16 } => spec_encode_u(2, rd, imm16),
        Instruction::Lb { rd, base, offset } => spec_encode_m(9, 1, 0, rd, base, offset),
        Instruction::Lbu { rd, base, offset } => spec_encode_m(9, 0, 0, rd, base, offset),
        Instruction::Lh { rd, base, offset } => spec_encode_m(9, 1, 1, rd, base, offset),
        Instruction::Lhu { rd, base, offset } => spec_encode_m(9, 0, 1, rd, base, offset),
        Instruction::Lw { rd, base, offset } => spec_encode_m(9, 0, 2, rd, base, offset),
        Instruction::Sb { rs, base, offset } => spec_encode_m(10, 0, 0, rs, base, offset),
        Instruction::Sh { rs, base, offset } => spec_encode_m(10, 0, 1, rs, base, offset),
        Instruction::Sw { rs, base, offset } => spec_encode_m(10, 0, 2, rs, base, offset),
        Instruction::BfEq { offset } => spec_encode_bf(0, offset),
        Instruction::BfNe { offset } => spec_encode_bf(1, offset),
        Instruction::BfLt { offset } => spec_encode_bf(2, offset),
        Instruction::BfLe { offset } => spec_encode_bf(3, offset),
        Instruction::BfGt { offset } => spec_encode_bf(4, offset),
        Instruction::BfGe { offset } => spec_encode_bf(5, offset),
        Instruction::BfLtu { offset } => spec_encode_bf(6, offset),
        Instruction::BfLeu { offset } => spec_encode_bf(7, offset),
        Instruction::BfGtu { offset } => spec_encode_bf(8, offset),
        Instruction::BfGeu { offset } => spec_encode_bf(9, offset),
        Instruction::BfCs { offset } => spec_encode_bf(10, offset),
        Instruction::BfCc { offset } => spec_encode_bf(11, offset),
        Instruction::BfVs { offset } => spec_encode_bf(12, offset),
        Instruction::BfVc { offset } => spec_encode_bf(13, offset),
        Instruction::BfEs { offset } => spec_encode_bf(14, offset),
        Instruction::BfEc { offset } => spec_encode_bf(15, offset),
        Instruction::BEq { ra, rb, offset } => spec_encode_bc(0, ra, rb, offset),
        Instruction::BNe { ra, rb, offset } => spec_encode_bc(1, ra, rb, offset),
        Instruction::BLt { ra, rb, offset } => spec_encode_bc(2, ra, rb, offset),
        Instruction::BLe { ra, rb, offset } => spec_encode_bc(3, ra, rb, offset),
        Instruction::BGt { ra, rb, offset } => spec_encode_bc(4, ra, rb, offset),
        Instruction::BGe { ra, rb, offset } => spec_encode_bc(5, ra, rb, offset),
        Instruction::BLtu { ra, rb, offset } => spec_encode_bc(6, ra, rb, offset),
        Instruction::BLeu { ra, rb, offset } => spec_encode_bc(7, ra, rb, offset),
        Instruction::BGtu { ra, rb, offset } => spec_encode_bc(8, ra, rb, offset),
        Instruction::BGeu { ra, rb, offset } => spec_encode_bc(9, ra, rb, offset),
        Instruction::Jmp { offset } => spec_encode_j(13, offset),
        Instruction::Call { offset } => spec_encode_j(14, offset),
        Instruction::Jr { target } => spec_encode_jr(0, 0, target),
        Instruction::Jalr { rd, target } => spec_encode_jr(1, rd, target),
    }
}

// ---------------------------------------------------------------------------
// Executable encoder

/// Encodes an instruction into its 32-bit word.
pub fn encode(inst: Instruction) -> (r: Result<u32, EncodeError>)
    ensures
        r == spec_encode(inst),
{
    match inst {
        Instruction::Nop => encode_x(0, 0, 0, 0),
        Instruction::Halt => encode_x(1, 0, 0, 0),
        Instruction::SoftwareTrap { imm } => encode_x(2, imm, 0, 0),
        Instruction::SystemCall => encode_x(3, 0, 0, 0),
        Instruction::IRet => encode_x(4, 0, 0, 0),
        Instruction::EI => encode_x(5, 0, 0, 0),
        Instruction::DI => encode_x(6, 0, 0, 0),
        Instruction::RdPc { rd } => encode_x(7, 0, rd, 0),
        Instruction::Mrs { creg4, rd } => encode_x(8, creg4.code(), rd, 0),
        Instruction::Msr { creg4, rs } => encode_x(9, creg4.code(), 0, rs),
        Instruction::Add { rd, ra, rb } => encode_r(1, 0, rd, ra, rb),
        Instruction::Sub { rd, ra, rb } => encode_r(1, 1, rd, ra, rb),
        Instruction::And { rd, ra, rb } => encode_r(1, 2, rd, ra, rb),
        Instruction::Or { rd, ra, rb } => encode_r(1, 3, rd, ra, rb),
        Instruction::Xor { rd, ra, rb } => encode_r(1, 4, rd, ra, rb),
        Instruction::Not { rd, ra } => encode_r(1, 5, rd, ra, 0),
        Instruction::Neg { rd, ra } => encode_r(1, 6, rd, ra, 0),
        Instruction::Cmp { ra, rb } => encode_r(1, 7, 0, ra, rb),
        Instruction::Addi { rd, ra, imm } => encode_i(2, 0, rd, ra, imm, true),
        Instruction::Subi { rd, ra, imm } => encode_i(2, 1, rd, ra, imm, true),
        Instruction::Cmpi { ra, imm } => encode_i(2, 2, 0, ra, imm, true),
        Instruction::Andi { rd, ra, imm } => encode_i(3, 0, rd, ra, imm, false),
        Instruction::Ori { rd, ra, imm } => encode_i(3, 1, rd, ra, imm, false),
        Instruction::Xori { rd, ra, imm } => encode_i(3, 2, rd, ra, imm, false),
        Instruction::Shl { rd, ra, rb } => encode_r(4, 0, rd, ra, rb),
        Instruction::Shr { rd, ra, rb } => encode_r(4, 1, rd, ra, rb),
        Instruction::Sar { rd, ra, rb } => encode_r(4, 2, rd, ra, rb),
        Instruction::Shli { rd, ra, imm } => encode_i(5, 0, rd, ra, imm as u32, false),
        Instruction::Shri { rd, ra, imm } => encode_i(5, 1, rd, ra, imm as u32, false),
        Instruction::Sari { rd, ra, imm } => encode_i(5, 2, rd, ra, imm as u32, false),
        Instruction::Btst { ra, imm } => encode_i(6, 0, 0, ra, imm as u32, false),
        Instruction::Bset { rd, ra, imm } => encode_i(6, 1, rd, ra, imm as u32, false),
        Instruction::Bclr { rd, ra, imm } => encode_i(6, 2, rd, ra, imm as u32, false),
        Instruction::Btgl { rd, ra, imm } => encode_i(6, 3, rd, ra, imm as u32, false),
        Instruction::Mul { rd0, rd1, ra, rb } => encode_r2(0, rd0, rd1, ra, rb),
        Instruction::Mulu { rd0, rd1, ra, rb } => encode_r2(1, rd0, rd1, ra, rb),
        Instruction::Div { rd0, rd1, ra, rb } => encode_r2(2, rd0, rd1, ra, rb),
        Instruction::Divu { rd0, rd1, ra, rb } => encode_r2(3, rd0, rd1, ra, rb),
        Instruction::Lui { rd, imm16 } => encode_u(0, rd, imm16),
        Instruction::Lli { rd, imm16 } => encode_u(1, rd, imm16),
        Instruction::Lhi { rd, imm16 } => encode_u(2, rd, imm16),
        Instruction::Lb { rd, base, offset } => encode_m(9, 1, 0, rd, base, offset),
        Instruction::Lbu { rd, base, offset } => encode_m(9, 0, 0, rd, base, offset),
        Instruction::Lh { rd, base, offset } => encode_m(9, 1, 1, rd, base, offset),
        Instruction::Lhu { rd, base, offset } => encode_m(9, 0, 1, rd, base, offset),
        Instruction::Lw { rd, base, offset } => encode_m(9, 0, 2, rd, base, offset),
        Instruction::Sb { rs, base, offset } => encode_m(10, 0, 0, rs, base, offset),
        Instruction::Sh { rs, base, offset } => encode_m(10, 0, 1, rs, base, offset),
        Instruction::Sw { rs, base, offset } => encode_m(10, 0, 2, rs, base, offset),
        Instruction::BfEq { offset } => encode_bf(0, offset),
        Instruction::BfNe { offset } => encode_bf(1, offset),
        Instruction::BfLt { offset } => encode_bf(2, offset),
        Instruction::BfLe { offset } => encode_bf(3, offset),
        Instruction::BfGt { offset } => encode_bf(4, offset),
        Instruction::BfGe { offset } => encode_bf(5, offset),
        Instruction::BfLtu { offset } => encode_bf(6, offset),
        Instruction::BfLeu { offset } => encode_bf(7, offset),
        Instruction::BfGtu { offset } => encode_bf(8, offset),
        Instruction::BfGeu { offset } => encode_bf(9, offset),
        Instruction::BfCs { offset } => encode_bf(10, offset),
        Instruction::BfCc { offset } => encode_bf(11, offset),
        Instruction::BfVs { offset } => encode_bf(12, offset),
        Instruction::BfVc { offset } => encode_bf(13, offset),
        Instruction::BfEs { offset } => encode_bf(14, offset),
        Instruction::BfEc { offset } => encode_bf(15, offset),
        Instruction::BEq { ra, rb, offset } => encode_bc(0, ra, rb, offset),
        Instruction::BNe { ra, rb, offset } => encode_bc(1, ra, rb, offset),
        Instruction::BLt { ra, rb, offset } => encode_bc(2, ra, rb, offset),
        Instruction::BLe { ra, rb, offset } => encode_bc(3, ra, rb, offset),
        Instruction::BGt { ra, rb, offset } => encode_bc(4, ra, rb, offset),
        Instruction::BGe { ra, rb, offset } => encode_bc(5, ra, rb, offset),
        Instruction::BLtu { ra, rb, offset } => encode_bc(6, ra, rb, offset),
        Instruction::BLeu { ra, rb, offset } => encode_bc(7, ra, rb, offset),
        Instruction::BGtu { ra, rb, offset } => encode_bc(8, ra, rb, offset),
        Instruction::BGeu { ra, rb, offset } => encode_bc(9, ra, rb, offset),
        Instruction::Jmp { offset } => encode_j(13, offset),
        Instruction::Call { offset } => encode_j(14, offset),
        Instruction::Jr { target } => encode_jr(0, 0, target),
        Instruction::Jalr { rd, target } => encode_jr(1, rd, target),
    }
}

fn check_reg(reg: u8) -> (r: Result<u32, EncodeError>)
    ensures
        r == spec_check_reg(reg),
{
    if reg > 15 {
        Err(EncodeError::InvalidRegister(reg))
    } else {
        Ok(reg as u32)
    }
}

fn encode_signed_field(value: i64, bits: u8, half: i64, reported: u32) -> (r: Result<u32, EncodeError>)
    requires
        0 < half <= 0x4000_0000,
    ensures
        r == spec_signed_field(value as int, bits, half as int, reported),
{
    if value < -half || value >= half {
        Err(EncodeError::InvalidImmediate { size: bits, value: reported })
    } else if value >= 0 {
        Ok(value as u32)
    } else {
        Ok((value + 2 * half) as u32)
    }
}

fn encode_word_offset(byte_offset: i32, bits: u8, half: i64) -> (r: Result<u32, EncodeError>)
    requires
        0 < half <= 0x4000_0000,
    ensures
        r == spec_word_offset(byte_offset, bits, half as int),
{
    let shifted: u64 = (byte_offset as i64 + 0x8000_0000i64) as u64;
    if shifted % 4 != 0 {
        Err(EncodeError::InvalidImmediate { size: bits, value: byte_offset as u32 })
    } else {
        let words: i64 = (shifted / 4) as i64 - 0x2000_0000i64;
        assert(words == byte_offset / 4);
        encode_signed_field(words, bits, half, words as u32)
    }
}

fn encode_r(op: u32, func: u32, rd: u8, ra: u8, rb: u8) -> (r: Result<u32, EncodeError>)
    ensures
        r == spec_encode_r(op, func, rd, ra, rb),
{
    let rd = check_reg(rd)?;
    let ra = check_reg(ra)?;
    let rb = check_reg(rb)?;
    Ok((op << 26u32) | (func << 12u32) | (rd << 8u32) | (ra << 4u32) | rb)
}

fn encode_i(op: u32, mode: u32, rd: u8, ra: u8, imm: u32, signed: bool) -> (r: Result<u32, EncodeError>)
    ensures
        r == spec_encode_i(op, mode, rd, ra, imm, signed),
{
    let rd = check_reg(rd)?;
    let ra = check_reg(ra)?;
    if (signed && !(imm <= 0xFFFF || imm >= 0xFFFF_8000)) || (!signed && imm > 0xFFFF) {
        return Err(EncodeError::InvalidImmediate { size: 16, value: imm });
    }
    let field = if imm <= 0xFFFF {
        imm
    } else {
        imm - 0xFFFF_0000
    };
    Ok((op << 26u32) | (mode << 24u32) | (field << 8u32) | (rd << 4u32) | ra)
}

fn encode_r2(func: u32, rd0: u8, rd1: u8, ra: u8, rb: u8) -> (r: Result<u32, EncodeError>)
    ensures
        r == spec_encode_r2(func, rd0, rd1, ra, rb),
{
    let rd0 = check_reg(rd0)?;
    let rd1 = check_reg(rd1)?;
    let ra = check_reg(ra)?;
    let rb = check_reg(rb)?;
    Ok((7u32 << 26u32) | (func << 16u32) | (rd0 << 12u32) | (rd1 << 8u32) | (ra << 4u32) | rb)
}

fn encode_u(mode: u32, rd: u8, imm: u16) -> (r: Result<u32, EncodeError>)
    ensures
        r == spec_encode_u(mode, rd, imm),
{
    let rd = check_reg(rd)?;
    Ok((8u32 << 26u32) | (mode << 20u32) | ((imm as u32) << 4u32) | rd)
}

fn encode_m(op: u32, sx: u32, size: u32, rd: u8, base: u8, offset: i32) -> (r: Result<u32, EncodeError>)
    ensures
        r == spec_encode_m(op, sx, size, rd, base, offset),
{
    let rd = check_reg(rd)?;
    let base = check_reg(base)?;
    let field = encode_signed_field(offset as i64, 15, 0x4000, offset as u32)?;
    Ok((op << 26u32) | (sx << 25u32) | (size << 23u32) | (field << 8u32) | (rd << 4u32) | base)
}

fn encode_bf(cond: u32, offset: i32) -> (r: Result<u32, EncodeError>)
    ensures
        r == spec_encode_bf(cond, offset),
{
    let field = encode_word_offset(offset, 22, 0x20_0000)?;
    Ok((11u32 << 26u32) | (cond << 22u32) | field)
}

fn encode_bc(cond: u32, ra: u8, rb: u8, offset: i32) -> (r: Result<u32, EncodeError>)
    ensures
        r == spec_encode_bc(cond, ra, rb, offset),
{
    let ra = check_reg(ra)?;
    let rb = check_reg(rb)?;
    let field = encode_word_offset(offset, 14, 0x2000)?;
    Ok((12u32 << 26u32) | (cond << 22u32) | (field << 8u32) | (ra << 4u32) | rb)
}

fn encode_j(op: u32, offset: i32) -> (r: Result<u32, EncodeError>)
    ensures
        r == spec_encode_j(op, offset),
{
    let field = encode_word_offset(offset, 26, 0x200_0000)?;
    Ok((op << 26u32) | field)
}

fn encode_jr(func: u32, rd: u8, target: u8) -> (r: Result<u32, EncodeError>)
    ensures
        r == spec_encode_jr(func, rd, target),
{
    let rd = check_reg(rd)?;
    let target = check_reg(target)?;
    Ok((15u32 << 26u32) | (func << 8u32) | (rd << 4u32) | target)
}

fn encode_x(sysop: u32, payload: u32, rd: u8, rs: u8) -> (r: Result<u32, EncodeError>)
    ensures
        r == spec_encode_x(sysop, payload, rd, rs),
{
    let rd = check_reg(rd)?;
    let rs = check_reg(rs)?;
    if payload > 0xFFF {
        return Err(EncodeError::InvalidPayload(payload));
    }
    Ok((sysop << 20u32) | (payload << 8u32) | (rd << 4u32) | rs)
}

// ---------------------------------------------------------------------------
// Field placement facts

proof fn lemma_pack_r(op: u32, func: u32, rd: u32, ra: u32, rb: u32)
    by (bit_vector)
    requires
        op < 64, func < 0x4000, rd < 16, ra < 16, rb < 16,
    ensures
        opcode_of(pack_r(op, func, rd, ra, rb)) == op,
        r_func(pack_r(op, func, rd, ra, rb)) == func,
        reg_high(pack_r(op, func, rd, ra, rb)) == rd,
        reg_mid(pack_r(op, func, rd, ra, rb)) == ra,
        reg_low(pack_r(op, func, rd, ra, rb)) == rb,
{
}

proof fn lemma_pack_i(op: u32, mode: u32, rd: u32, ra: u32, imm: u32)
    by (bit_vector)
    requires
        op < 64, mode < 4, rd < 16, ra < 16, imm < 0x10000,
    ensures
        opcode_of(pack_i(op, mode, rd, ra, imm)) == op,
        i_mode(pack_i(op, mode, rd, ra, imm)) == mode,
        i_imm16(pack_i(op, mode, rd, ra, imm)) == imm,
        reg_mid(pack_i(op, mode, rd, ra, imm)) == rd,
        reg_low(pack_i(op, mode, rd, ra, imm)) == ra,
{
}

proof fn lemma_pack_r2(func: u32, rd0: u32, rd1: u32, ra: u32, rb: u32)
    by (bit_vector)
    requires
        func < 0x400, rd0 < 16, rd1 < 16, ra < 16, rb < 16,
    ensures
        opcode_of(pack_r2(func, rd0, rd1, ra, rb)) == 7,
        r2_func(pack_r2(func, rd0, rd1, ra, rb)) == func,
        r2_rd0(pack_r2(func, rd0, rd1, ra, rb)) == rd0,
        reg_high(pack_r2(func, rd0, rd1, ra, rb)) == rd1,
        reg_mid(pack_r2(func, rd0, rd1, ra, rb)) == ra,
        reg_low(pack_r2(func, rd0, rd1, ra, rb)) == rb,
{
}

proof fn lemma_pack_u(mode: u32, rd: u32, imm: u32)
    by (bit_vector)
    requires
        mode < 64, rd < 16, imm < 0x10000,
    ensures
        opcode_of(pack_u(mode, rd, imm)) == 8,
        u_mode(pack_u(mode, rd, imm)) == mode,
        u_imm16(pack_u(mode, rd, imm)) == imm,
        reg_low(pack_u(mode, rd, imm)) == rd,
{
}

proof fn lemma_pack_m(op: u32, sx: u32, size: u32, rd: u32, base: u32, offset: u32)
    by (bit_vector)
    requires
        op < 64, sx < 2, size < 4, rd < 16, base < 16, offset < 0x8000,
    ensures
        opcode_of(pack_m(op, sx, size, rd, base, offset)) == op,
        m_sx(pack_m(op, sx, size, rd, base, offset)) == sx,
        m_size(pack_m(op, sx, size, rd, base, offset)) == size,
        m_offset15(pack_m(op, sx, size, rd, base, offset)) == offset,
        reg_mid(pack_m(op, sx, size, rd, base, offset)) == rd,
        reg_low(pack_m(op, sx, size, rd, base, offset)) == base,
{
}

proof fn lemma_pack_bf(cond: u32, offset: u32)
    by (bit_vector)
    requires
        cond < 16, offset < 0x40_0000,
    ensures
        opcode_of(pack_bf(cond, offset)) == 11,
        cond_of(pack_bf(cond, offset)) == cond,
        bf_offset22(pack_bf(cond, offset)) == offset,
{
}

proof fn lemma_pack_bc(cond: u32, ra: u32, rb: u32, offset: u32)
    by (bit_vector)
    requires
        cond < 16, ra < 16, rb < 16, offset < 0x4000,
    ensures
        opcode_of(pack_bc(cond, ra, rb, offset)) == 12,
        cond_of(pack_bc(cond, ra, rb, offset)) == cond,
        bc_offset14(pack_bc(cond, ra, rb, offset)) == offset,
        reg_mid(pack_bc(cond, ra, rb, offset)) == ra,
        reg_low(pack_bc(cond, ra, rb, offset)) == rb,
{
}

proof fn lemma_pack_j(op: u32, offset: u32)
    by (bit_vector)
    requires
        op < 64, offset < 0x400_0000,
    ensures
        opcode_of(pack_j(op, offset)) == op,
        j_offset26(pack_j(op, offset)) == offset,
{
}

proof fn lemma_pack_jr(func: u32, rd: u32, target: u32)
    by (bit_vector)
    requires
        func < 0x4_0000, rd < 16, target < 16,
    ensures
        opcode_of(pack_jr(func, rd, target)) == 15,
        jr_func(pack_jr(func, rd, target)) == func,
        reg_mid(pack_jr(func, rd, target)) == rd,
        reg_low(pack_jr(func, rd, target)) == target,
{
}

proof fn lemma_pack_x(sysop: u32, payload: u32, rd: u32, rs: u32)
    by (bit_vector)
    requires
        sysop < 64, payload < 0x1000, rd < 16, rs < 16,
    ensures
        opcode_of(pack_x(sysop, payload, rd, rs)) == 0,
        x_sysop(pack_x(sysop, payload, rd, rs)) == sysop,
        x_payload(pack_x(sysop, payload, rd, rs)) == payload,
        reg_mid(pack_x(sysop, payload, rd, rs)) == rd,
        reg_low(pack_x(sysop, payload, rd, rs)) == rs,
{
}

proof fn lemma_signed_field(value: int, bits: u8, half: int, reported: u32)
    requires
        0 < half <= 0x4000_0000,
        spec_signed_field(value, bits, half, reported) is Ok,
    ensures
        ({
            let f = spec_signed_field(value, bits, half, reported)->Ok_0;
            f < 2 * half && sign_extend(f, half) == value
        }),
{
}

proof fn lemma_word_offset(byte_offset: i32, bits: u8, half: int)
    requires
        0 < half <= 0x200_0000,
        spec_word_offset(byte_offset, bits, half) is Ok,
    ensures
        ({
            let f = spec_word_offset(byte_offset, bits, half)->Ok_0;
            f < 2 * half && sign_extend(f, half) * 4 == byte_offset
        }),
{
    lemma_signed_field(byte_offset / 4, bits, half, (byte_offset / 4) as u32);
}

proof fn lemma_low16(imm: u32)
    requires
        imm16_encodable(imm),
    ensures
        low16(imm) < 0x10000,
        is_sext16(imm) ==> sext16(low16(imm)) == imm,
        low16(sext16(low16(imm))) == low16(imm),
{
}

proof fn lemma_creg_code(c: Creg)
    ensures
        spec_creg_code(c) < 0x1000,
        spec_decode_creg(spec_creg_code(c)) == Ok::<Creg, super::decode::DecodeError>(c),
{
}

// ---------------------------------------------------------------------------
// The round-trip law

/// The instruction with the immediate of `addi`, `subi` and `cmpi` in the
/// sign-extended form that the 16-bit field stands for.
pub open spec fn sign_extended(inst: Instruction) -> Instruction {
    match inst {
        Instruction::Addi { rd, ra, imm } => Instruction::Addi { rd, ra, imm: sext16(low16(imm)) },
        Instruction::Subi { rd, ra, imm } => Instruction::Subi { rd, ra, imm: sext16(low16(imm)) },
        Instruction::Cmpi { ra, imm } => Instruction::Cmpi { ra, imm: sext16(low16(imm)) },
        _ => inst,
    }
}

/// Whether the immediate of `addi`, `subi` and `cmpi` is already written as
/// the sign extension of its 16-bit field.
pub open spec fn immediates_sign_extended(inst: Instruction) -> bool {
    match inst {
        Instruction::Addi { imm, .. } => is_sext16(imm),
        Instruction::Subi { imm, .. } => is_sext16(imm),
        Instruction::Cmpi { imm, .. } => is_sext16(imm),
        _ => true,
    }
}

/// Decoding the word that `encode` produces for an instruction gives that
/// instruction back, every operand recovered exactly, except that an `addi`,
/// `subi` or `cmpi` immediate from 0x8000 to 0xFFFF comes back sign-extended.
pub proof fn lemma_decode_encode(inst: Instruction)
    requires
        spec_encode(inst) is Ok,
    ensures
        spec_decode(spec_encode(inst)->Ok_0) == Ok::<Instruction, super::decode::DecodeError>(sign_extended(inst)),
        immediates_sign_extended(inst) ==> sign_extended(inst) == inst,
{
    match inst {
        Instruction::Nop => lemma_pack_x(0, 0, 0, 0),
        Instruction::Halt => lemma_pack_x(1, 0, 0, 0),
        Instruction::SoftwareTrap { imm } => lemma_pack_x(2, imm, 0, 0),
        Instruction::SystemCall => lemma_pack_x(3, 0, 0, 0),
        Instruction::IRet => lemma_pack_x(4, 0, 0, 0),
        Instruction::EI => lemma_pack_x(5, 0, 0, 0),
        Instruction::DI => lemma_pack_x(6, 0, 0, 0),
        Instruction::RdPc { rd } => lemma_pack_x(7, 0, rd as u32, 0),
        Instruction::Mrs { creg4, rd } => {
            lemma_creg_code(creg4);
            lemma_pack_x(8, spec_creg_code(creg4), rd as u32, 0);
        },
        Instruction::Msr { creg4, rs } => {
            lemma_creg_code(creg4);
            lemma_pack_x(9, spec_creg_code(creg4), 0, rs as u32);
        },
        Instruction::Add { rd, ra, rb } => lemma_pack_r(1, 0, rd as u32, ra as u32, rb as u32),
        Instruction::Sub { rd, ra, rb } => lemma_pack_r(1, 1, rd as u32, ra as u32, rb as u32),
        Instruction::And { rd, ra, rb } => lemma_pack_r(1, 2, rd as u32, ra as u32, rb as u32),
        Instruction::Or { rd, ra, rb } => lemma_pack_r(1, 3, rd as u32, ra as u32, rb as u32),
        Instruction::Xor { rd, ra, rb } => lemma_pack_r(1, 4, rd as u32, ra as u32, rb as u32),
        Instruction::Not { rd, ra } => lemma_pack_r(1, 5, rd as u32, ra as u32, 0),
        Instruction::Neg { rd, ra } => lemma_pack_r(1, 6, rd as u32, ra as u32, 0),
        Instruction::Cmp { ra, rb } => lemma_pack_r(1, 7, 0, ra as u32, rb as u32),
        Instruction::Addi { rd, ra, imm } => {
            lemma_low16(imm);
            lemma_pack_i(2, 0, rd as u32, ra as u32, low16(imm));
        },
        Instruction::Subi { rd, ra, imm } => {
            lemma_low16(imm);
            lemma_pack_i(2, 1, rd as u32, ra as u32, low16(imm));
        },
        Instruction::Cmpi { ra, imm } => {
            lemma_low16(imm);
            lemma_pack_i(2, 2, 0, ra as u32, low16(imm));
        },
        Instruction::Andi { rd, ra, imm } => lemma_pack_i(3, 0, rd as u32, ra as u32, imm),
        Instruction::Ori { rd, ra, imm } => lemma_pack_i(3, 1, rd as u32, ra as u32, imm),
        Instruction::Xori { rd, ra, imm } => lemma_pack_i(3, 2, rd as u32, ra as u32, imm),
        Instruction::Shl { rd, ra, rb } => lemma_pack_r(4, 0, rd as u32, ra as u32, rb as u32),
        Instruction::Shr { rd, ra, rb } => lemma_pack_r(4, 1, rd as u32, ra as u32, rb as u32),
        Instruction::Sar { rd, ra, rb } => lemma_pack_r(4, 2, rd as u32, ra as u32, rb as u32),
        Instruction::Shli { rd, ra, imm } => lemma_pack_i(5, 0, rd as u32, ra as u32, imm as u32),
        Instruction::Shri { rd, ra, imm } => lemma_pack_i(5, 1, rd as u32, ra as u32, imm as u32),
        Instruction::Sari { rd, ra, imm } => lemma_pack_i(5, 2, rd as u32, ra as u32, imm as u32),
        Instruction::Btst { ra, imm } => lemma_pack_i(6, 0, 0, ra as u32, imm as u32),
        Instruction::Bset { rd, ra, imm } => lemma_pack_i(6, 1, rd as u32, ra as u32, imm as u32),
        Instruction::Bclr { rd, ra, imm } => lemma_pack_i(6, 2, rd as u32, ra as u32, imm as u32),
        Instruction::Btgl { rd, ra, imm } => lemma_pack_i(6, 3, rd as u32, ra as u32, imm as u32),
        Instruction::Mul { rd0, rd1, ra, rb } => lemma_pack_r2(0, rd0 as u32, rd1 as u32, ra as u32, rb as u32),
        Instruction::Mulu { rd0, rd1, ra, rb } => lemma_pack_r2(1, rd0 as u32, rd1 as u32, ra as u32, rb as u32),
        Instruction::Div { rd0, rd1, ra, rb } => lemma_pack_r2(2, rd0 as u32, rd1 as u32, ra as u32, rb as u32),
        Instruction::Divu { rd0, rd1, ra, rb } => lemma_pack_r2(3, rd0 as u32, rd1 as u32, ra as u32, rb as u32),
        Instruction::Lui { rd, imm16 } => lemma_pack_u(0, rd as u32, imm16 as u32),
        Instruction::Lli { rd, imm16 } => lemma_pack_u(1, rd as u32, imm16 as u32),
        Instruction::Lhi { rd, imm16 } => lemma_pack_u(2, rd as u32, imm16 as u32),
        Instruction::Lb { rd, base, offset } => lemma_m(9, 1, 0, rd, base, offset),
        Instruction::Lbu { rd, base, offset } => lemma_m(9, 0, 0, rd, base, offset),
        Instruction::Lh { rd, base, offset } => lemma_m(9, 1, 1, rd, base, offset),
        Instruction::Lhu { rd, base, offset } => lemma_m(9, 0, 1, rd, base, offset),
        Instruction::Lw { rd, base, offset } => lemma_m(9, 0, 2, rd, base, offset),
        Instruction::Sb { rs, base, offset } => lemma_m(10, 0, 0, rs, base, offset),
        Instruction::Sh { rs, base, offset } => lemma_m(10, 0, 1, rs, base, offset),
        Instruction::Sw { rs, base, offset } => lemma_m(10, 0, 2, rs, base, offset),
        Instruction::BfEq { offset } => lemma_bf(0, offset),
        Instruction::BfNe { offset } => lemma_bf(1, offset),
        Instruction::BfLt { offset } => lemma_bf(2, offset),
        Instruction::BfLe { offset } => lemma_bf(3, offset),
        Instruction::BfGt { offset } => lemma_bf(4, offset),
        Instruction::BfGe { offset } => lemma_bf(5, offset),
        Instruction::BfLtu { offset } => lemma_bf(6, offset),
        Instruction::BfLeu { offset } => lemma_bf(7, offset),
        Instruction::BfGtu { offset } => lemma_bf(8, offset),
        Instruction::BfGeu { offset } => lemma_bf(9, offset),
        Instruction::BfCs { offset } => lemma_bf(10, offset),
        Instruction::BfCc { offset } => lemma_bf(11, offset),
        Instruction::BfVs { offset } => lemma_bf(12, offset),
        Instruction::BfVc { offset } => lemma_bf(13, offset),
        Instruction::BfEs { offset } => lemma_bf(14, offset),
        Instruction::BfEc { offset } => lemma_bf(15, offset),
        Instruction::BEq { ra, rb, offset } => lemma_bc(0, ra, rb, offset),
        Instruction::BNe { ra, rb, offset } => lemma_bc(1, ra, rb, offset),
        Instruction::BLt { ra, rb, offset } => lemma_bc(2, ra, rb, offset),
        Instruction::BLe { ra, rb, offset } => lemma_bc(3, ra, rb, offset),
        Instruction::BGt { ra, rb, offset } => lemma_bc(4, ra, rb, offset),
        Instruction::BGe { ra, rb, offset } => lemma_bc(5, ra, rb, offset),
        Instruction::BLtu { ra, rb, offset } => lemma_bc(6, ra, rb, offset),
        Instruction::BLeu { ra, rb, offset } => lemma_bc(7, ra, rb, offset),
        Instruction::BGtu { ra, rb, offset } => lemma_bc(8, ra, rb, offset),
        Instruction::BGeu { ra, rb, offset } => lemma_bc(9, ra, rb, offset),
        Instruction::Jmp { offset } => lemma_j(13, offset),
        Instruction::Call { offset } => lemma_j(14, offset),
        Instruction::Jr { target } => lemma_pack_jr(0, 0, target as u32),
        Instruction::Jalr { rd, target } => lemma_pack_jr(1, rd as u32, target as u32),
    }
}

proof fn lemma_m(op: u32, sx: u32, size: u32, rd: u8, base: u8, offset: i32)
    requires
        op < 64, sx < 2, size < 4,
        spec_encode_m(op, sx, size, rd, base, offset) is Ok,
    ensures
        ({
            let w = spec_encode_m(op, sx, size, rd, base, offset)->Ok_0;
            &&& opcode_of(w) == op
            &&& m_sx(w) == sx
            &&& m_size(w) == size
            &&& sign_extend(m_offset15(w), 0x4000) == offset
            &&& reg_mid(w) == rd as u32
            &&& reg_low(w) == base as u32
        }),
{
    lemma_signed_field(offset as int, 15, 0x4000, offset as u32);
    let f = spec_signed_field(offset as int, 15, 0x4000, offset as u32)->Ok_0;
    lemma_pack_m(op, sx, size, rd as u32, base as u32, f);
}

proof fn lemma_bf(cond: u32, offset: i32)
    requires
        cond < 16,
        spec_encode_bf(cond, offset) is Ok,
    ensures
        ({
            let w = spec_encode_bf(cond, offset)->Ok_0;
            &&& opcode_of(w) == 11
            &&& cond_of(w) == cond
            &&& sign_extend(bf_offset22(w), 0x20_0000) * 4 == offset
        }),
{
    lemma_word_offset(offset, 22, 0x20_0000);
    lemma_pack_bf(cond, spec_word_offset(offset, 22, 0x20_0000)->Ok_0);
}

proof fn lemma_bc(cond: u32, ra: u8, rb: u8, offset: i32)
    requires
        cond < 16,
        spec_encode_bc(cond, ra, rb, offset) is Ok,
    ensures
        ({
            let w = spec_encode_bc(cond, ra, rb, offset)->Ok_0;
            &&& opcode_of(w) == 12
            &&& cond_of(w) == cond
            &&& sign_extend(bc_offset14(w), 0x2000) * 4 == offset
            &&& reg_mid(w) == ra as u32
            &&& reg_low(w) == rb as u32
        }),
{
    lemma_word_offset(offset, 14, 0x2000);
    lemma_pack_bc(cond, ra as u32, rb as u32, spec_word_offset(offset, 14, 0x2000)->Ok_0);
}

proof fn lemma_j(op: u32, offset: i32)
    requires
        op < 64,
        spec_encode_j(op, offset) is Ok,
    ensures
        ({
            let w = spec_encode_j(op, offset)->Ok_0;
            &&& opcode_of(w) == op
            &&& sign_extend(j_offset26(w), 0x200_0000) * 4 == offset
        }),
{
    lemma_word_offset(offset, 26, 0x200_0000);
    lemma_pack_j(op, spec_word_offset(offset, 26, 0x200_0000)->Ok_0);
}

/// Re-encoding a decoded word that `encode` produced gives the same word.
pub proof fn lemma_encode_decode_encode(inst: Instruction)
    requires
        spec_encode(inst) is Ok,
    ensures
        spec_decode(spec_encode(inst)->Ok_0) is Ok,
        spec_encode(spec_decode(spec_encode(inst)->Ok_0)->Ok_0) == spec_encode(inst),
{
    lemma_decode_encode(inst);
    match inst {
        Instruction::Addi { imm, .. } => lemma_low16(imm),
        Instruction::Subi { imm, .. } => lemma_low16(imm),
        Instruction::Cmpi { imm, .. } => lemma_low16(imm),
        _ => {},
    }
}

} // verus!
