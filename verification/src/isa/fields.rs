//! Field extraction and sign extension shared by the decoders and the encoder.
use vstd::prelude::*;

verus! {

pub open spec fn opcode_of(raw: u32) -> u32 {
    (raw >> 26u32) & 0x3Fu32
}

/// Bits 4..8, the middle register field of most formats.
pub open spec fn reg_mid(raw: u32) -> u32 {
    (raw & 0xF0u32) >> 4u32
}

/// Bits 0..4, the low register field of most formats.
pub open spec fn reg_low(raw: u32) -> u32 {
    raw & 0xFu32
}

/// Bits 8..12, a register field of the R- and R2-type formats.
pub open spec fn reg_high(raw: u32) -> u32 {
    (raw & 0xF00u32) >> 8u32
}

pub open spec fn r_func(raw: u32) -> u32 {
    (raw & 0x03FF_F000u32) >> 12u32
}

pub open spec fn r2_func(raw: u32) -> u32 {
    (raw & 0x03FF_0000u32) >> 16u32
}

pub open spec fn r2_rd0(raw: u32) -> u32 {
    (raw & 0xF000u32) >> 12u32
}

pub open spec fn i_mode(raw: u32) -> u32 {
    (raw & 0x0300_0000u32) >> 24u32
}

pub open spec fn i_imm16(raw: u32) -> u32 {
    (raw & 0x00FF_FF00u32) >> 8u32
}

pub open spec fn u_mode(raw: u32) -> u32 {
    (raw & 0x03F0_0000u32) >> 20u32
}

pub open spec fn u_imm16(raw: u32) -> u32 {
    (raw & 0x000F_FFF0u32) >> 4u32
}

pub open spec fn m_sx(raw: u32) -> u32 {
    (raw & 0x0200_0000u32) >> 25u32
}

pub open spec fn m_size(raw: u32) -> u32 {
    (raw & 0x0180_0000u32) >> 23u32
}

pub open spec fn m_offset15(raw: u32) -> u32 {
    (raw & 0x007F_FF00u32) >> 8u32
}

pub open spec fn cond_of(raw: u32) -> u32 {
    (raw & 0x03C0_0000u32) >> 22u32
}

pub open spec fn bf_offset22(raw: u32) -> u32 {
    raw & 0x003F_FFFFu32
}

pub open spec fn bc_offset14(raw: u32) -> u32 {
    (raw & 0x003F_FF00u32) >> 8u32
}

pub open spec fn j_offset26(raw: u32) -> u32 {
    raw & 0x03FF_FFFFu32
}

pub open spec fn jr_func(raw: u32) -> u32 {
    (raw & 0x03FF_FF00u32) >> 8u32
}

pub open spec fn x_sysop(raw: u32) -> u32 {
    (raw & 0x03F0_0000u32) >> 20u32
}

pub open spec fn x_payload(raw: u32) -> u32 {
    (raw & 0x000F_FF00u32) >> 8u32
}

/// The two's-complement value of a field whose sign bit has weight `half`.
pub open spec fn sign_extend(v: u32, half: int) -> int {
    if v < half {
        v as int
    } else {
        v as int - 2 * half
    }
}

/// A 16-bit immediate sign-extended to a 32-bit pattern.
pub open spec fn sext16(imm16: u32) -> u32 {
    if imm16 < 0x8000 {
        imm16
    } else {
        (imm16 + 0xFFFF_0000u32) as u32
    }
}

/// Upper bounds of every field of a raw word.
pub proof fn lemma_field_bounds(raw: u32)
    by (bit_vector)
    ensures
        opcode_of(raw) < 64,
        reg_mid(raw) < 16,
        reg_low(raw) < 16,
        reg_high(raw) < 16,
        r_func(raw) < 0x4000,
        r2_func(raw) < 0x400,
        r2_rd0(raw) < 16,
        i_mode(raw) < 4,
        i_imm16(raw) < 0x10000,
        u_mode(raw) < 64,
        u_imm16(raw) < 0x10000,
        m_sx(raw) < 2,
        m_size(raw) < 4,
        m_offset15(raw) < 0x8000,
        cond_of(raw) < 16,
        bf_offset22(raw) < 0x40_0000,
        bc_offset14(raw) < 0x4000,
        j_offset26(raw) < 0x400_0000,
        jr_func(raw) < 0x4_0000,
        x_sysop(raw) < 64,
        x_payload(raw) < 0x1000,
{
}

/// Sign-extends a 16-bit immediate.
pub fn sext16_exec(imm16: u32) -> (r: u32)
    requires
        imm16 < 0x10000,
    ensures
        r == sext16(imm16),
{
    if imm16 < 0x8000 {
        imm16
    } else {
        imm16 + 0xFFFF_0000
    }
}

/// Sign-extends a field whose sign bit has weight `half` (a power of two below 2^30).
pub fn sign_extend_exec(v: u32, half: u32) -> (r: i32)
    requires
        0 < half <= 0x4000_0000,
        v < 2 * half,
    ensures
        r == sign_extend(v, half as int),
{
    if v < half {
        v as i32
    } else {
        let wide: i64 = v as i64 - 2 * (half as i64);
        wide as i32
    }
}

} // verus!
