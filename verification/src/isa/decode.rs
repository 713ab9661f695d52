//! Decoding of 32-bit instruction words.
use vstd::prelude::*;

use super::creg::Creg;
use super::fields::{
    bc_offset14, bf_offset22, cond_of, i_imm16, i_mode, j_offset26, jr_func, lemma_field_bounds,
    m_offset15, m_size, m_sx, opcode_of, r2_func, r2_rd0, r_func, reg_high, reg_low, reg_mid,
    sext16, sext16_exec, sign_extend, sign_extend_exec, u_imm16, u_mode, x_payload, x_sysop,
};
use super::instruction::Instruction;

verus! {

/// Why a word does not decode to an instruction.
#[derive(Debug, Clone, Copy, PartialEq, Eq, Structural)]
pub enum DecodeError {
    /// The word is not an instruction; it carries the whole raw word.
    IllegalInstruction(u32),
    /// A control-register payload names no control register.
    IllegalPayload(u32),
}

pub open spec fn spec_decode_creg(payload: u32) -> Result<Creg, DecodeError> {
    if payload == 0 {
        Ok(Creg::PC)
    } else if payload == 1 {
        Ok(Creg::SR)
    } else if payload == 2 {
        Ok(Creg::EPC)
    } else if payload == 3 {
        Ok(Creg::ESR)
    } else if payload == 4 {
        Ok(Creg::ECause)
    } else if payload == 5 {
        Ok(Creg::EData)
    } else if payload == 6 {
        Ok(Creg::EvBase)
    } else {
        Err(DecodeError::IllegalPayload(payload))
    }
}

pub open spec fn spec_decode_r(opcode: u32, raw: u32) -> Result<Instruction, DecodeError> {
    let func = r_func(raw);
    let rd = reg_high(raw) as u8;
    let ra = reg_mid(raw) as u8;
    let rb = reg_low(raw) as u8;
    if opcode == 1 {
        if func == 0 {
            Ok(Instruction::Add { rd, ra, rb })
        } else if func == 1 {
            Ok(Instruction::Sub { rd, ra, rb })
        } else if func == 2 {
            Ok(Instruction::And { rd, ra, rb })
        } else if func == 3 {
            Ok(Instruction::Or { rd, ra, rb })
        } else if func == 4 {
            Ok(Instruction::Xor { rd, ra, rb })
        } else if func == 5 {
            Ok(Instruction::Not { rd, ra })
        } else if func == 6 {
            Ok(Instruction::Neg { rd, ra })
        } else if func == 7 {
            Ok(Instruction::Cmp { ra, rb })
        } else {
            Err(DecodeError::IllegalInstruction(raw))
        }
    } else {
        if func == 0 {
            Ok(Instruction::Shl { rd, ra, rb })
        } else if func == 1 {
            Ok(Instruction::Shr { rd, ra, rb })
        } else if func == 2 {
            Ok(Instruction::Sar { rd, ra, rb })
        } else {
            Err(DecodeError::IllegalInstruction(raw))
        }
    }
}

pub open spec fn spec_decode_i(opcode: u32, raw: u32) -> Result<Instruction, DecodeError> {
    let mode = i_mode(raw);
    let imm16 = i_imm16(raw);
    let imm = sext16(imm16);
    let rd = reg_mid(raw) as u8;
    let ra = reg_low(raw) as u8;
    if opcode == 2 {
        if mode == 0 {
            Ok(Instruction::Addi { rd, ra, imm })
        } else if mode == 1 {
            Ok(Instruction::Subi { rd, ra, imm })
        } else if mode == 2 {
            Ok(Instruction::Cmpi { ra, imm })
        } else {
            Err(DecodeError::IllegalInstruction(raw))
        }
    } else if opcode == 3 {
        if mode == 0 {
            Ok(Instruction::Andi { rd, ra, imm: imm16 })
        } else if mode == 1 {
            Ok(Instruction::Ori { rd, ra, imm: imm16 })
        } else if mode == 2 {
            Ok(Instruction::Xori { rd, ra, imm: imm16 })
        } else {
            Err(DecodeError::IllegalInstruction(raw))
        }
    } else if opcode == 5 {
        if mode == 0 {
            Ok(Instruction::Shli { rd, ra, imm: imm16 as u8 })
        } else if mode == 1 {
            Ok(Instruction::Shri { rd, ra, imm: imm16 as u8 })
        } else if mode == 2 {
            Ok(Instruction::Sari { rd, ra, imm: imm16 as u8 })
        } else {
            Err(DecodeError::IllegalInstruction(raw))
        }
    } else {
        if mode == 0 {
            Ok(Instruction::Btst { ra, imm: imm16 as u8 })
        } else if mode == 1 {
            Ok(Instruction::Bset { rd, ra, imm: imm16 as u8 })
        } else if mode == 2 {
            Ok(Instruction::Bclr { rd, ra, imm: imm16 as u8 })
        } else {
            Ok(Instruction::Btgl { rd, ra, imm: imm16 as u8 })
        }
    }
}

pub open spec fn spec_decode_r2(raw: u32) -> Result<Instruction, DecodeError> {
    let func = r2_func(raw);
    let rd0 = r2_rd0(raw) as u8;
    let rd1 = reg_high(raw) as u8;
    let ra = reg_mid(raw) as u8;
    let rb = reg_low(raw) as u8;
    if func == 0 {
        Ok(Instruction::Mul { rd0, rd1, ra, rb })
    } else if func == 1 {
        Ok(Instruction::Mulu { rd0, rd1, ra, rb })
    } else if func == 2 {
        Ok(Instruction::Div { rd0, rd1, ra, rb })
    } else if func == 3 {
        Ok(Instruction::Divu { rd0, rd1, ra, rb })
    } else {
        Err(DecodeError::IllegalInstruction(raw))
    }
}

pub open spec fn spec_decode_u(raw: u32) -> Result<Instruction, DecodeError> {
    let mode = u_mode(raw);
    let imm16 = u_imm16(raw) as u16;
    let rd = reg_low(raw) as u8;
    if mode == 0 {
        Ok(Instruction::Lui { rd, imm16 })
    } else if mode == 1 {
        Ok(Instruction::Lli { rd, imm16 })
    } else if mode == 2 {
        Ok(Instruction::Lhi { rd, imm16 })
    } else {
        Err(DecodeError::IllegalInstruction(raw))
    }
}

pub open spec fn spec_decode_m(opcode: u32, raw: u32) -> Result<Instruction, DecodeError> {
    let sx = m_sx(raw);
    let size = m_size(raw);
    let offset = sign_extend(m_offset15(raw), 0x4000) as i32;
    let r = reg_mid(raw) as u8;
    let base = reg_low(raw) as u8;
    if opcode == 9 {
        if size == 0 {
            if sx == 0 {
                Ok(Instruction::Lbu { rd: r, base, offset })
            } else {
                Ok(Instruction::Lb { rd: r, base, offset })
            }
        } else if size == 1 {
            if sx == 0 {
                Ok(Instruction::Lhu { rd: r, base, offset })
            } else {
                Ok(Instruction::Lh { rd: r, base, offset })
            }
        } else if size == 2 {
            Ok(Instruction::Lw { rd: r, base, offset })
        } else {
            Err(DecodeError::IllegalInstruction(raw))
        }
    } else {
        if size == 0 {
            Ok(Instruction::Sb { rs: r, base, offset })
        } else if size == 1 {
            Ok(Instruction::Sh { rs: r, base, offset })
        } else if size == 2 {
            Ok(Instruction::Sw { rs: r, base, offset })
        } else {
            Err(DecodeError::IllegalInstruction(raw))
        }
    }
}

/// Byte offset of a flag branch.
pub open spec fn bf_offset(raw: u32) -> i32 {
    (sign_extend(bf_offset22(raw), 0x20_0000) * 4) as i32
}

/// Byte offset of a register branch.
pub open spec fn bc_offset(raw: u32) -> i32 {
    (sign_extend(bc_offset14(raw), 0x2000) * 4) as i32
}

/// Byte offset of a PC-relative jump or call.
pub open spec fn j_offset(raw: u32) -> i32 {
    (sign_extend(j_offset26(raw), 0x200_0000) * 4) as i32
}

pub open spec fn spec_decode_bf(raw: u32) -> Result<Instruction, DecodeError> {
    let cond = cond_of(raw);
    let offset = bf_offset(raw);
    if cond == 0 {
        Ok(Instruction::BfEq { offset })
    } else if cond == 1 {
        Ok(Instruction::BfNe { offset })
    } else if cond == 2 {
        Ok(Instruction::BfLt { offset })
    } else if cond == 3 {
        Ok(Instruction::BfLe { offset })
    } else if cond == 4 {
        Ok(Instruction::BfGt { offset })
    } else if cond == 5 {
        Ok(Instruction::BfGe { offset })
    } else if cond == 6 {
        Ok(Instruction::BfLtu { offset })
    } else if cond == 7 {
        Ok(Instruction::BfLeu { offset })
    } else if cond == 8 {
        Ok(Instruction::BfGtu { offset })
    } else if cond == 9 {
        Ok(Instruction::BfGeu { offset })
    } else if cond == 10 {
        Ok(Instruction::BfCs { offset })
    } else if cond == 11 {
        Ok(Instruction::BfCc { offset })
    } else if cond == 12 {
        Ok(Instruction::BfVs { offset })
    } else if cond == 13 {
        Ok(Instruction::BfVc { offset })
    } else if cond == 14 {
        Ok(Instruction::BfEs { offset })
    } else {
        Ok(Instruction::BfEc { offset })
    }
}

pub open spec fn spec_decode_bc(raw: u32) -> Result<Instruction, DecodeError> {
    let cond = cond_of(raw);
    let offset = bc_offset(raw);
    let ra = reg_mid(raw) as u8;
    let rb = reg_low(raw) as u8;
    if cond == 0 {
        Ok(Instruction::BEq { ra, rb, offset })
    } else if cond == 1 {
        Ok(Instruction::BNe { ra, rb, offset })
    } else if cond == 2 {
        Ok(Instruction::BLt { ra, rb, offset })
    } else if cond == 3 {
        Ok(Instruction::BLe { ra, rb, offset })
    } else if cond == 4 {
        Ok(Instruction::BGt { ra, rb, offset })
    } else if cond == 5 {
        Ok(Instruction::BGe { ra, rb, offset })
    } else if cond == 6 {
        Ok(Instruction::BLtu { ra, rb, offset })
    } else if cond == 7 {
        Ok(Instruction::BLeu { ra, rb, offset })
    } else if cond == 8 {
        Ok(Instruction::BGtu { ra, rb, offset })
    } else if cond == 9 {
        Ok(Instruction::BGeu { ra, rb, offset })
    } else {
        Err(DecodeError::IllegalInstruction(raw))
    }
}

pub open spec fn spec_decode_j(opcode: u32, raw: u32) -> Result<Instruction, DecodeError> {
    if opcode == 13 {
        Ok(Instruction::Jmp { offset: j_offset(raw) })
    } else {
        Ok(Instruction::Call { offset: j_offset(raw) })
    }
}

pub open spec fn spec_decode_jr(raw: u32) -> Result<Instruction, DecodeError> {
    let func = jr_func(raw);
    let rd = reg_mid(raw) as u8;
    let target = reg_low(raw) as u8;
    if func == 0 {
        Ok(Instruction::Jr { target })
    } else if func == 1 {
        Ok(Instruction::Jalr { rd, target })
    } else {
        Err(DecodeError::IllegalInstruction(raw))
    }
}

pub open spec fn spec_decode_x(raw: u32) -> Result<Instruction, DecodeError> {
    let sysop = x_sysop(raw);
    let payload = x_payload(raw);
    let rd = reg_mid(raw) as u8;
    let rs = reg_low(raw) as u8;
    if sysop == 0 {
        Ok(Instruction::Nop)
    } else if sysop == 1 {
        Ok(Instruction::Halt)
    } else if sysop == 2 {
        Ok(Instruction::SoftwareTrap { imm: payload })
    } else if sysop == 3 {
        Ok(Instruction::SystemCall)
    } else if sysop == 4 {
        Ok(Instruction::IRet)
    } else if sysop == 5 {
        Ok(Instruction::EI)
    } else if sysop == 6 {
        Ok(Instruction::DI)
    } else if sysop == 7 {
        Ok(Instruction::RdPc { rd })
    } else if sysop == 8 {
        match spec_decode_creg(payload) {
            Ok(creg4) => Ok(Instruction::Mrs { creg4, rd }),
            Err(e) => Err(e),
        }
    } else if sysop == 9 {
        match spec_decode_creg(payload) {
            Ok(creg4) => Ok(Instruction::Msr { creg4, rs }),
            Err(e) => Err(e),
        }
    } else {
        Err(DecodeError::IllegalInstruction(raw))
    }
}

/// The instruction that a raw word encodes, selected by its major opcode.
pub open spec fn spec_decode(raw: u32) -> Result<Instruction, DecodeError> {
    let opcode = opcode_of(raw);
    if opcode == 1 || opcode == 4 {
        spec_decode_r(opcode, raw)
    } else if opcode == 2 || opcode == 3 || opcode == 5 || opcode == 6 {
        spec_decode_i(opcode, raw)
    } else if opcode == 7 {
        spec_decode_r2(raw)
    } else if opcode == 8 {
        spec_decode_u(raw)
    } else if opcode == 9 || opcode == 10 {
        spec_decode_m(opcode, raw)
    } else if opcode == 11 {
        spec_decode_bf(raw)
    } else if opcode == 12 {
        spec_decode_bc(raw)
    } else if opcode == 13 || opcode == 14 {
        spec_decode_j(opcode, raw)
    } else if opcode == 15 {
        spec_decode_jr(raw)
    } else if opcode == 0 {
        spec_decode_x(raw)
    } else {
        Err(DecodeError::IllegalInstruction(raw))
    }
}

/// Decodes a raw instruction word.
pub fn decode(raw: u32) -> (r: Result<Instruction, DecodeError>)
    ensures
        r == spec_decode(raw),
{
    proof {
        lemma_field_bounds(raw);
    }
    let opcode = (raw >> 26u32) & 0x3Fu32;
    if opcode == 1 || opcode == 4 {
        decode_r(opcode, raw)
    } else if opcode == 2 || opcode == 3 || opcode == 5 || opcode == 6 {
        decode_i(opcode, raw)
    } else if opcode == 7 {
        decode_r2(raw)
    } else if opcode == 8 {
        decode_u(raw)
    } else if opcode == 9 || opcode == 10 {
        decode_m(opcode, raw)
    } else if opcode == 11 {
        decode_bf(raw)
    } else if opcode == 12 {
        decode_bc(raw)
    } else if opcode == 13 || opcode == 14 {
        decode_j(opcode, raw)
    } else if opcode == 15 {
        decode_jr(raw)
    } else if opcode == 0 {
        decode_x(raw)
    } else {
        Err(DecodeError::IllegalInstruction(raw))
    }
}

fn decode_r(opcode: u32, raw: u32) -> (r: Result<Instruction, DecodeError>)
    ensures
        r == spec_decode_r(opcode, raw),
{
    let func = (raw & 0x03FF_F000u32) >> 12u32;
    let rd = ((raw & 0xF00u32) >> 8u32) as u8;
    let ra = ((raw & 0xF0u32) >> 4u32) as u8;
    let rb = (raw & 0xFu32) as u8;
    if opcode == 1 {
        if func == 0 {
            Ok(Instruction::Add { rd, ra, rb })
        } else if func == 1 {
            Ok(Instruction::Sub { rd, ra, rb })
        } else if func == 2 {
            Ok(Instruction::And { rd, ra, rb })
        } else if func == 3 {
            Ok(Instruction::Or { rd, ra, rb })
        } else if func == 4 {
            Ok(Instruction::Xor { rd, ra, rb })
        } else if func == 5 {
            Ok(Instruction::Not { rd, ra })
        } else if func == 6 {
            Ok(Instruction::Neg { rd, ra })
        } else if func == 7 {
            Ok(Instruction::Cmp { ra, rb })
        } else {
            Err(DecodeError::IllegalInstruction(raw))
        }
    } else {
        if func == 0 {
            Ok(Instruction::Shl { rd, ra, rb })
        } else if func == 1 {
            Ok(Instruction::Shr { rd, ra, rb })
        } else if func == 2 {
            Ok(Instruction::Sar { rd, ra, rb })
        } else {
            Err(DecodeError::IllegalInstruction(raw))
        }
    }
}

fn decode_i(opcode: u32, raw: u32) -> (r: Result<Instruction, DecodeError>)
    ensures
        r == spec_decode_i(opcode, raw),
{
    proof {
        lemma_field_bounds(raw);
    }
    let mode = (raw & 0x0300_0000u32) >> 24u32;
    let imm16 = (raw & 0x00FF_FF00u32) >> 8u32;
    let imm = sext16_exec(imm16);
    let rd = ((raw & 0xF0u32) >> 4u32) as u8;
    let ra = (raw & 0xFu32) as u8;
    if opcode == 2 {
        if mode == 0 {
            Ok(Instruction::Addi { rd, ra, imm })
        } else if mode == 1 {
            Ok(Instruction::Subi { rd, ra, imm })
        } else if mode == 2 {
            Ok(Instruction::Cmpi { ra, imm })
        } else {
            Err(DecodeError::IllegalInstruction(raw))
        }
    } else if opcode == 3 {
        if mode == 0 {
            Ok(Instruction::Andi { rd, ra, imm: imm16 })
        } else if mode == 1 {
            Ok(Instruction::Ori { rd, ra, imm: imm16 })
        } else if mode == 2 {
            Ok(Instruction::Xori { rd, ra, imm: imm16 })
        } else {
            Err(DecodeError::IllegalInstruction(raw))
        }
    } else if opcode == 5 {
        if mode == 0 {
            Ok(Instruction::Shli { rd, ra, imm: imm16 as u8 })
        } else if mode == 1 {
            Ok(Instruction::Shri { rd, ra, imm: imm16 as u8 })
        } else if mode == 2 {
            Ok(Instruction::Sari { rd, ra, imm: imm16 as u8 })
        } else {
            Err(DecodeError::IllegalInstruction(raw))
        }
    } else {
        if mode == 0 {
            Ok(Instruction::Btst { ra, imm: imm16 as u8 })
        } else if mode == 1 {
            Ok(Instruction::Bset { rd, ra, imm: imm16 as u8 })
        } else if mode == 2 {
            Ok(Instruction::Bclr { rd, ra, imm: imm16 as u8 })
        } else {
            Ok(Instruction::Btgl { rd, ra, imm: imm16 as u8 })
        }
    }
}

fn decode_r2(raw: u32) -> (r: Result<Instruction, DecodeError>)
    ensures
        r == spec_decode_r2(raw),
{
    let func = (raw & 0x03FF_0000u32) >> 16u32;
    let rd0 = ((raw & 0xF000u32) >> 12u32) as u8;
    let rd1 = ((raw & 0xF00u32) >> 8u32) as u8;
    let ra = ((raw & 0xF0u32) >> 4u32) as u8;
    let rb = (raw & 0xFu32) as u8;
    if func == 0 {
        Ok(Instruction::Mul { rd0, rd1, ra, rb })
    } else if func == 1 {
        Ok(Instruction::Mulu { rd0, rd1, ra, rb })
    } else if func == 2 {
        Ok(Instruction::Div { rd0, rd1, ra, rb })
    } else if func == 3 {
        Ok(Instruction::Divu { rd0, rd1, ra, rb })
    } else {
        Err(DecodeError::IllegalInstruction(raw))
    }
}

fn decode_u(raw: u32) -> (r: Result<Instruction, DecodeError>)
    ensures
        r == spec_decode_u(raw),
{
    let mode = (raw & 0x03F0_0000u32) >> 20u32;
    let imm16 = ((raw & 0x000F_FFF0u32) >> 4u32) as u16;
    let rd = (raw & 0xFu32) as u8;
    if mode == 0 {
        Ok(Instruction::Lui { rd, imm16 })
    } else if mode == 1 {
        Ok(Instruction::Lli { rd, imm16 })
    } else if mode == 2 {
        Ok(Instruction::Lhi { rd, imm16 })
    } else {
        Err(DecodeError::IllegalInstruction(raw))
    }
}

fn decode_m(opcode: u32, raw: u32) -> (r: Result<Instruction, DecodeError>)
    ensures
        r == spec_decode_m(opcode, raw),
{
    proof {
        lemma_field_bounds(raw);
    }
    let sx = (raw & 0x0200_0000u32) >> 25u32;
    let size = (raw & 0x0180_0000u32) >> 23u32;
    let offset = sign_extend_exec((raw & 0x007F_FF00u32) >> 8u32, 0x4000);
    let r = ((raw & 0xF0u32) >> 4u32) as u8;
    let base = (raw & 0xFu32) as u8;
    if opcode == 9 {
        if size == 0 {
            if sx == 0 {
                Ok(Instruction::Lbu { rd: r, base, offset })
            } else {
                Ok(Instruction::Lb { rd: r, base, offset })
            }
        } else if size == 1 {
            if sx == 0 {
                Ok(Instruction::Lhu { rd: r, base, offset })
            } else {
                Ok(Instruction::Lh { rd: r, base, offset })
            }
        } else if size == 2 {
            Ok(Instruction::Lw { rd: r, base, offset })
        } else {
            Err(DecodeError::IllegalInstruction(raw))
        }
    } else {
        if size == 0 {
            Ok(Instruction::Sb { rs: r, base, offset })
        } else if size == 1 {
            Ok(Instruction::Sh { rs: r, base, offset })
        } else if size == 2 {
            Ok(Instruction::Sw { rs: r, base, offset })
        } else {
            Err(DecodeError::IllegalInstruction(raw))
        }
    }
}

/// Byte offset of a branch whose word offset field is `v`, sign bit weight `half`.
fn branch_offset(v: u32, half: u32) -> (r: i32)
    requires
        0 < half <= 0x200_0000,
        v < 2 * half,
    ensures
        r == (sign_extend(v, half as int) * 4) as i32,
        r == sign_extend(v, half as int) * 4,
{
    let words = sign_extend_exec(v, half);
    words * 4
}

fn decode_bf(raw: u32) -> (r: Result<Instruction, DecodeError>)
    ensures
        r == spec_decode_bf(raw),
{
    proof {
        lemma_field_bounds(raw);
    }
    let cond = (raw & 0x03C0_0000u32) >> 22u32;
    let offset = branch_offset(raw & 0x003F_FFFFu32, 0x20_0000);
    if cond == 0 {
        Ok(Instruction::BfEq { offset })
    } else if cond == 1 {
        Ok(Instruction::BfNe { offset })
    } else if cond == 2 {
        Ok(Instruction::BfLt { offset })
    } else if cond == 3 {
        Ok(Instruction::BfLe { offset })
    } else if cond == 4 {
        Ok(Instruction::BfGt { offset })
    } else if cond == 5 {
        Ok(Instruction::BfGe { offset })
    } else if cond == 6 {
        Ok(Instruction::BfLtu { offset })
    } else if cond == 7 {
        Ok(Instruction::BfLeu { offset })
    } else if cond == 8 {
        Ok(Instruction::BfGtu { offset })
    } else if cond == 9 {
        Ok(Instruction::BfGeu { offset })
    } else if cond == 10 {
        Ok(Instruction::BfCs { offset })
    } else if cond == 11 {
        Ok(Instruction::BfCc { offset })
    } else if cond == 12 {
        Ok(Instruction::BfVs { offset })
    } else if cond == 13 {
        Ok(Instruction::BfVc { offset })
    } else if cond == 14 {
        Ok(Instruction::BfEs { offset })
    } else {
        Ok(Instruction::BfEc { offset })
    }
}

fn decode_bc(raw: u32) -> (r: Result<Instruction, DecodeError>)
    ensures
        r == spec_decode_bc(raw),
{
    proof {
        lemma_field_bounds(raw);
    }
    let cond = (raw & 0x03C0_0000u32) >> 22u32;
    let offset = branch_offset((raw & 0x003F_FF00u32) >> 8u32, 0x2000);
    let ra = ((raw & 0xF0u32) >> 4u32) as u8;
    let rb = (raw & 0xFu32) as u8;
    if cond == 0 {
        Ok(Instruction::BEq { ra, rb, offset })
    } else if cond == 1 {
        Ok(Instruction::BNe { ra, rb, offset })
    } else if cond == 2 {
        Ok(Instruction::BLt { ra, rb, offset })
    } else if cond == 3 {
        Ok(Instruction::BLe { ra, rb, offset })
    } else if cond == 4 {
        Ok(Instruction::BGt { ra, rb, offset })
    } else if cond == 5 {
        Ok(Instruction::BGe { ra, rb, offset })
    } else if cond == 6 {
        Ok(Instruction::BLtu { ra, rb, offset })
    } else if cond == 7 {
        Ok(Instruction::BLeu { ra, rb, offset })
    } else if cond == 8 {
        Ok(Instruction::BGtu { ra, rb, offset })
    } else if cond == 9 {
        Ok(Instruction::BGeu { ra, rb, offset })
    } else {
        Err(DecodeError::IllegalInstruction(raw))
    }
}

fn decode_j(opcode: u32, raw: u32) -> (r: Result<Instruction, DecodeError>)
    ensures
        r == spec_decode_j(opcode, raw),
{
    proof {
        lemma_field_bounds(raw);
    }
    let offset = branch_offset(raw & 0x03FF_FFFFu32, 0x200_0000);
    if opcode == 13 {
        Ok(Instruction::Jmp { offset })
    } else {
        Ok(Instruction::Call { offset })
    }
}

fn decode_jr(raw: u32) -> (r: Result<Instruction, DecodeError>)
    ensures
        r == spec_decode_jr(raw),
{
    let func = (raw & 0x03FF_FF00u32) >> 8u32;
    let rd = ((raw & 0xF0u32) >> 4u32) as u8;
    let target = (raw & 0xFu32) as u8;
    if func == 0 {
        Ok(Instruction::Jr { target })
    } else if func == 1 {
        Ok(Instruction::Jalr { rd, target })
    } else {
        Err(DecodeError::IllegalInstruction(raw))
    }
}

fn decode_x(raw: u32) -> (r: Result<Instruction, DecodeError>)
    ensures
        r == spec_decode_x(raw),
{
    let sysop = (raw & 0x03F0_0000u32) >> 20u32;
    let payload = (raw & 0x000F_FF00u32) >> 8u32;
    let rd = ((raw & 0xF0u32) >> 4u32) as u8;
    let rs = (raw & 0xFu32) as u8;
    if sysop == 0 {
        Ok(Instruction::Nop)
    } else if sysop == 1 {
        Ok(Instruction::Halt)
    } else if sysop == 2 {
        Ok(Instruction::SoftwareTrap { imm: payload })
    } else if sysop == 3 {
        Ok(Instruction::SystemCall)
    } else if sysop == 4 {
        Ok(Instruction::IRet)
    } else if sysop == 5 {
        Ok(Instruction::EI)
    } else if sysop == 6 {
        Ok(Instruction::DI)
    } else if sysop == 7 {
        Ok(Instruction::RdPc { rd })
    } else if sysop == 8 {
        let creg4 = decode_creg(payload)?;
        Ok(Instruction::Mrs { creg4, rd })
    } else if sysop == 9 {
        let creg4 = decode_creg(payload)?;
        Ok(Instruction::Msr { creg4, rs })
    } else {
        Err(DecodeError::IllegalInstruction(raw))
    }
}

fn decode_creg(payload: u32) -> (r: Result<Creg, DecodeError>)
    ensures
        r == spec_decode_creg(payload),
{
    if payload == 0 {
        Ok(Creg::PC)
    } else if payload == 1 {
        Ok(Creg::SR)
    } else if payload == 2 {
        Ok(Creg::EPC)
    } else if payload == 3 {
        Ok(Creg::ESR)
    } else if payload == 4 {
        Ok(Creg::ECause)
    } else if payload == 5 {
        Ok(Creg::EData)
    } else if payload == 6 {
        Ok(Creg::EvBase)
    } else {
        Err(DecodeError::IllegalPayload(payload))
    }
}

} // verus!
