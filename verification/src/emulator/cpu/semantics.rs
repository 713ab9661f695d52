//! What each instruction, and each clock tick, does to the processor state.
use vstd::prelude::*;

use crate::emulator::platform::error::SystemBusError;
use crate::emulator::platform::system_bus::{
    bus_read16, bus_read32, bus_read8, bus_tick, bus_write16, bus_write32, bus_write8, pending_from,
    PendingInterrupt, SystemBusView,
};
use crate::word::{signed32, wrap32};

use super::creg_file::{creg_raised, creg_returned, creg_value, creg_written, flags_updated, CregView};
use super::decode::{spec_cpu_decode, DecodedInstruction};
use super::exception_cause::ExceptionCause;
use super::status::SrFlags;

verus! {

/// The whole architectural state: registers, control registers, the bus with
/// its devices, and whether the processor is halted.
pub ghost struct CpuView {
    pub gpr: Seq<u32>,
    pub creg: CregView,
    pub bus: SystemBusView,
    pub halted: bool,
}

/// The value general-purpose register `r` reads as.
pub open spec fn reg(v: CpuView, r: u8) -> u32 {
    v.gpr[r as int]
}

/// The state after writing `value` to register `r`; writes to r0 are dropped.
pub open spec fn with_reg(v: CpuView, r: u8, value: u32) -> CpuView {
    if r == 0 {
        v
    } else {
        CpuView { gpr: v.gpr.update(r as int, value), ..v }
    }
}

/// The state after an instruction sets the five result flags.
pub open spec fn with_flags(v: CpuView, ae: bool, z: bool, n: bool, c: bool, ov: bool) -> CpuView {
    CpuView { creg: CregView { sr: flags_updated(v.creg.sr, ae, z, n, c, ov), ..v.creg }, ..v }
}

/// The state with the PC set to `pc`.
pub open spec fn with_pc(v: CpuView, pc: u32) -> CpuView {
    CpuView { creg: CregView { pc, ..v.creg }, ..v }
}

/// The state after an exception of `cause` with `data` in EDATA.
pub open spec fn raised(v: CpuView, cause: ExceptionCause, data: u32) -> CpuView {
    CpuView { creg: creg_raised(v.creg, cause, data), ..v }
}

/// Whether a word is negative as a two's-complement number.
pub open spec fn negative(x: u32) -> bool {
    x >= 0x8000_0000
}

pub open spec fn fits_i32(x: int) -> bool {
    -0x8000_0000 <= x < 0x8000_0000
}

/// `value` written to `rd`, with the flags of a logical result.
pub open spec fn logical(v: CpuView, rd: u8, value: u32) -> CpuView {
    with_flags(with_reg(v, rd, value), false, value == 0, negative(value), false, false)
}

/// `a + b` written to `rd`: C is the unsigned carry out, V the signed overflow.
pub open spec fn added(v: CpuView, rd: u8, a: u32, b: u32) -> CpuView {
    let r = wrap32(a + b);
    with_flags(with_reg(v, rd, r), false, r == 0, negative(r), a + b > u32::MAX, !fits_i32(signed32(a) + signed32(b)))
}

/// `a - b` written to `rd`: C is set when no borrow occurs, V on signed overflow.
pub open spec fn subtracted(v: CpuView, rd: u8, a: u32, b: u32) -> CpuView {
    let r = wrap32(a - b);
    with_flags(with_reg(v, rd, r), false, r == 0, negative(r), a >= b, !fits_i32(signed32(a) - signed32(b)))
}

/// The flags of `a - b`, with no register written.
pub open spec fn compared(v: CpuView, a: u32, b: u32) -> CpuView {
    with_flags(v, false, a == b, negative(wrap32(a - b)), a >= b, !fits_i32(signed32(a) - signed32(b)))
}

/// `0 - a` written to `rd`: C when `a` is zero, V when `a` is the most negative word.
pub open spec fn negated(v: CpuView, rd: u8, a: u32) -> CpuView {
    let r = wrap32(0 - a);
    with_flags(with_reg(v, rd, r), false, r == 0, negative(r), a == 0, a == 0x8000_0000)
}

/// A shift by more than 31: AE is set, the other flags cleared, nothing written.
pub open spec fn shift_refused(v: CpuView) -> CpuView {
    with_flags(v, true, false, false, false, false)
}

/// Bit `k` of `a`.
pub open spec fn bit(a: u32, k: u32) -> bool {
    (a >> k) & 1u32 == 1u32
}

/// The arithmetic right shift of a word: copies of the sign bit shift in.
pub open spec fn sar_word(a: u32, s: u32) -> u32 {
    if negative(a) {
        !((!a) >> s)
    } else {
        a >> s
    }
}

/// A shift result written to `rd`; C is the last bit shifted out.
pub open spec fn shifted(v: CpuView, rd: u8, r: u32, c: bool) -> CpuView {
    with_flags(with_reg(v, rd, r), false, r == 0, negative(r), c, false)
}

pub open spec fn shl_result(v: CpuView, rd: u8, a: u32, count: u32) -> CpuView {
    if count > 31 {
        shift_refused(v)
    } else {
        shifted(v, rd, a << count, count != 0 && bit(a, (32 - count) as u32))
    }
}

pub open spec fn shr_result(v: CpuView, rd: u8, a: u32, count: u32) -> CpuView {
    if count > 31 {
        shift_refused(v)
    } else {
        shifted(v, rd, a >> count, count != 0 && bit(a, (count - 1) as u32))
    }
}

pub open spec fn sar_result(v: CpuView, rd: u8, a: u32, count: u32) -> CpuView {
    if count > 31 {
        shift_refused(v)
    } else {
        shifted(v, rd, sar_word(a, count), count != 0 && bit(a, (count - 1) as u32))
    }
}

/// The single-bit mask of a bit instruction; the bit number is taken modulo 32.
pub open spec fn bit_mask(imm: u8) -> u32 {
    1u32 << ((imm % 32) as u32)
}

/// `x` modulo 2^64: the 64-bit two's-complement pattern of `x`.
pub open spec fn wrap64(x: int) -> int {
    x % 0x1_0000_0000_0000_0000
}

/// A 64-bit product pattern `w` split into `rd0` (low word) and `rd1` (high word).
pub open spec fn product_written(v: CpuView, rd0: u8, rd1: u8, w: int) -> CpuView {
    with_reg(with_reg(v, rd0, (w % 0x1_0000_0000) as u32), rd1, (w / 0x1_0000_0000) as u32)
}

pub open spec fn mul_result(v: CpuView, rd0: u8, rd1: u8, a: u32, b: u32) -> CpuView {
    let p = signed32(a) * signed32(b);
    with_flags(product_written(v, rd0, rd1, wrap64(p)), false, p == 0, p < 0, false, false)
}

pub open spec fn mulu_result(v: CpuView, rd0: u8, rd1: u8, a: u32, b: u32) -> CpuView {
    let p = a * b;
    with_flags(product_written(v, rd0, rd1, p), false, p == 0, false, false, false)
}

pub open spec fn abs(x: int) -> int {
    if x < 0 {
        -x
    } else {
        x
    }
}

/// The quotient of `x / y` rounded toward zero.
pub open spec fn trunc_quotient(x: int, y: int) -> int {
    let q = abs(x) / abs(y);
    if (x < 0) != (y < 0) {
        -q
    } else {
        q
    }
}

/// Signed division: a zero divisor sets AE; the one overflowing quotient sets
/// AE and V; otherwise the quotient goes to `rd0` and the remainder, with the
/// dividend's sign, to `rd1`.
pub open spec fn div_result(v: CpuView, rd0: u8, rd1: u8, a: u32, b: u32) -> CpuView {
    let x = signed32(a);
    let y = signed32(b);
    if y == 0 {
        with_flags(v, true, false, false, false, false)
    } else if x == -0x8000_0000 && y == -1 {
        with_flags(v, true, false, false, false, true)
    } else {
        let q = trunc_quotient(x, y);
        with_flags(with_reg(with_reg(v, rd0, wrap32(q)), rd1, wrap32(x - q * y)), false, q == 0, q < 0, false, false)
    }
}

pub open spec fn divu_result(v: CpuView, rd0: u8, rd1: u8, a: u32, b: u32) -> CpuView {
    if b == 0 {
        with_flags(v, true, false, false, false, false)
    } else {
        let q = a / b;
        with_flags(with_reg(with_reg(v, rd0, q), rd1, a % b), false, q == 0, false, false, false)
    }
}

/// The byte loaded by `lb`, sign-extended.
pub open spec fn sext8(b: u8) -> u32 {
    if b < 0x80 {
        b as u32
    } else {
        (b + 0xFFFF_FF00u32) as u32
    }
}

/// The halfword loaded by `lh`, sign-extended.
pub open spec fn sext16(h: u16) -> u32 {
    if h < 0x8000 {
        h as u32
    } else {
        (h + 0xFFFF_0000u32) as u32
    }
}

/// The address of a load or store: base register plus signed offset, wrapping.
pub open spec fn effective_address(v: CpuView, base: u8, offset: i32) -> u32 {
    wrap32(reg(v, base) + offset)
}

/// A failed data access: misalignment or a bus fault, with the address in EDATA.
pub open spec fn access_fault(v: CpuView, e: SystemBusError, addr: u32) -> CpuView {
    if e is MisalignedAccess {
        raised(v, ExceptionCause::MisalignedDataAccess, addr)
    } else {
        raised(v, ExceptionCause::BusError, addr)
    }
}

/// A load: the bus state after the access, then either the loaded value in
/// `rd` or an exception.
pub open spec fn loaded(v: CpuView, rd: u8, addr: u32, bus: SystemBusView, r: Result<u32, SystemBusError>) -> CpuView {
    let v1 = CpuView { bus, ..v };
    match r {
        Ok(value) => with_reg(v1, rd, value),
        Err(e) => access_fault(v1, e, addr),
    }
}

/// A store: the bus state after the access, and an exception if it failed.
pub open spec fn stored(v: CpuView, addr: u32, bus: SystemBusView, r: Result<(), SystemBusError>) -> CpuView {
    let v1 = CpuView { bus, ..v };
    match r {
        Ok(_) => v1,
        Err(e) => access_fault(v1, e, addr),
    }
}

pub open spec fn load8(v: CpuView, rd: u8, base: u8, offset: i32, signed: bool) -> CpuView {
    let addr = effective_address(v, base, offset);
    let (bus, r) = bus_read8(v.bus, addr);
    loaded(v, rd, addr, bus, match r {
        Ok(b) => Ok(if signed { sext8(b) } else { b as u32 }),
        Err(e) => Err(e),
    })
}

pub open spec fn load16(v: CpuView, rd: u8, base: u8, offset: i32, signed: bool) -> CpuView {
    let addr = effective_address(v, base, offset);
    let (bus, r) = bus_read16(v.bus, addr);
    loaded(v, rd, addr, bus, match r {
        Ok(h) => Ok(if signed { sext16(h) } else { h as u32 }),
        Err(e) => Err(e),
    })
}

pub open spec fn load32(v: CpuView, rd: u8, base: u8, offset: i32) -> CpuView {
    let addr = effective_address(v, base, offset);
    let (bus, r) = bus_read32(v.bus, addr);
    loaded(v, rd, addr, bus, r)
}

pub open spec fn store8(v: CpuView, rs: u8, base: u8, offset: i32) -> CpuView {
    let addr = effective_address(v, base, offset);
    let (bus, r) = bus_write8(v.bus, addr, reg(v, rs) as u8);
    stored(v, addr, bus, r)
}

pub open spec fn store16(v: CpuView, rs: u8, base: u8, offset: i32) -> CpuView {
    let addr = effective_address(v, base, offset);
    let (bus, r) = bus_write16(v.bus, addr, reg(v, rs) as u16);
    stored(v, addr, bus, r)
}

pub open spec fn store32(v: CpuView, rs: u8, base: u8, offset: i32) -> CpuView {
    let addr = effective_address(v, base, offset);
    let (bus, r) = bus_write32(v.bus, addr, reg(v, rs));
    stored(v, addr, bus, r)
}

/// A PC-relative jump by `offset` when `taken`.
pub open spec fn jumped(v: CpuView, offset: i32, taken: bool) -> CpuView {
    if taken {
        with_pc(v, wrap32(v.creg.pc + offset))
    } else {
        v
    }
}

/// Whether a flag branch is taken.
pub open spec fn flag_condition(i: DecodedInstruction, f: SrFlags) -> bool {
    match i {
        DecodedInstruction::BfEq { .. } => f.z,
        DecodedInstruction::BfNe { .. } => !f.z,
        DecodedInstruction::BfLt { .. } => f.n != f.v,
        DecodedInstruction::BfLe { .. } => f.z || f.n != f.v,
        DecodedInstruction::BfGt { .. } => !f.z && f.n == f.v,
        DecodedInstruction::BfGe { .. } => f.n == f.v,
        DecodedInstruction::BfLtu { .. } => !f.c,
        DecodedInstruction::BfLeu { .. } => !f.c || f.z,
        DecodedInstruction::BfGtu { .. } => f.c && !f.z,
        DecodedInstruction::BfGeu { .. } => f.c,
        DecodedInstruction::BfCs { .. } => f.c,
        DecodedInstruction::BfCc { .. } => !f.c,
        DecodedInstruction::BfVs { .. } => f.v,
        DecodedInstruction::BfVc { .. } => !f.v,
        DecodedInstruction::BfEs { .. } => f.e,
        DecodedInstruction::BfEc { .. } => !f.e,
        _ => false,
    }
}

/// Whether a register-compare branch is taken.
pub open spec fn compare_condition(i: DecodedInstruction, a: u32, b: u32) -> bool {
    match i {
        DecodedInstruction::BEq { .. } => a == b,
        DecodedInstruction::BNe { .. } => a != b,
        DecodedInstruction::BLt { .. } => signed32(a) < signed32(b),
        DecodedInstruction::BLe { .. } => signed32(a) <= signed32(b),
        DecodedInstruction::BGt { .. } => signed32(a) > signed32(b),
        DecodedInstruction::BGe { .. } => signed32(a) >= signed32(b),
        DecodedInstruction::BLtu { .. } => a < b,
        DecodedInstruction::BLeu { .. } => a <= b,
        DecodedInstruction::BGtu { .. } => a > b,
        DecodedInstruction::BGeu { .. } => a >= b,
        _ => false,
    }
}

/// Whether every register an instruction names is one of the sixteen.
pub open spec fn operands_valid(i: DecodedInstruction) -> bool {
    match i {
        DecodedInstruction::RdPc { rd } => rd < 16,
        DecodedInstruction::Mrs { rd, .. } => rd < 16,
        DecodedInstruction::Msr { rs, .. } => rs < 16,
        DecodedInstruction::Add { rd, ra, rb }
        | DecodedInstruction::Sub { rd, ra, rb }
        | DecodedInstruction::And { rd, ra, rb }
        | DecodedInstruction::Or { rd, ra, rb }
        | DecodedInstruction::Xor { rd, ra, rb }
        | DecodedInstruction::Shl { rd, ra, rb }
        | DecodedInstruction::Shr { rd, ra, rb }
        | DecodedInstruction::Sar { rd, ra, rb } => rd < 16 && ra < 16 && rb < 16,
        DecodedInstruction::Not { rd, ra } | DecodedInstruction::Neg { rd, ra } => rd < 16 && ra < 16,
        DecodedInstruction::Cmp { ra, rb } => ra < 16 && rb < 16,
        DecodedInstruction::Addi { rd, ra, .. }
        | DecodedInstruction::Subi { rd, ra, .. }
        | DecodedInstruction::Andi { rd, ra, .. }
        | DecodedInstruction::Ori { rd, ra, .. }
        | DecodedInstruction::Xori { rd, ra, .. }
        | DecodedInstruction::Shli { rd, ra, .. }
        | DecodedInstruction::Shri { rd, ra, .. }
        | DecodedInstruction::Sari { rd, ra, .. }
        | DecodedInstruction::Bset { rd, ra, .. }
        | DecodedInstruction::Bclr { rd, ra, .. }
        | DecodedInstruction::Btgl { rd, ra, .. } => rd < 16 && ra < 16,
        DecodedInstruction::Cmpi { ra, .. } | DecodedInstruction::Btst { ra, .. } => ra < 16,
        DecodedInstruction::Mul { rd0, rd1, ra, rb }
        | DecodedInstruction::Mulu { rd0, rd1, ra, rb }
        | DecodedInstruction::Div { rd0, rd1, ra, rb }
        | DecodedInstruction::Divu { rd0, rd1, ra, rb } => rd0 < 16 && rd1 < 16 && ra < 16 && rb < 16,
        DecodedInstruction::Lui { rd, .. } | DecodedInstruction::Lli { rd, .. } | DecodedInstruction::Lhi { rd, .. } => rd < 16,
        DecodedInstruction::Lb { rd, base, .. }
        | DecodedInstruction::Lbu { rd, base, .. }
        | DecodedInstruction::Lh { rd, base, .. }
        | DecodedInstruction::Lhu { rd, base, .. }
        | DecodedInstruction::Lw { rd, base, .. } => rd < 16 && base < 16,
        DecodedInstruction::Sb { rs, base, .. }
        | DecodedInstruction::Sh { rs, base, .. }
        | DecodedInstruction::Sw { rs, base, .. } => rs < 16 && base < 16,
        DecodedInstruction::BEq { ra, rb, .. }
        | DecodedInstruction::BNe { ra, rb, .. }
        | DecodedInstruction::BLt { ra, rb, .. }
        | DecodedInstruction::BLe { ra, rb, .. }
        | DecodedInstruction::BGt { ra, rb, .. }
        | DecodedInstruction::BGe { ra, rb, .. }
        | DecodedInstruction::BLtu { ra, rb, .. }
        | DecodedInstruction::BLeu { ra, rb, .. }
        | DecodedInstruction::BGtu { ra, rb, .. }
        | DecodedInstruction::BGeu { ra, rb, .. } => ra < 16 && rb < 16,
        DecodedInstruction::Jr { target } => target < 16,
        DecodedInstruction::Jalr { rd, target } => rd < 16 && target < 16,
        _ => true,
    }
}

/// The control instructions.
pub open spec fn exec_control(v: CpuView, i: DecodedInstruction) -> CpuView {
    match i {
        DecodedInstruction::Halt => CpuView { halted: true, ..v },
        DecodedInstruction::SoftwareTrap { imm } => raised(v, ExceptionCause::SoftwareTrap, wrap32(imm as int)),
        DecodedInstruction::SystemCall => raised(v, ExceptionCause::SystemCall, 0),
        DecodedInstruction::IRet => CpuView { creg: creg_returned(v.creg), ..v },
        DecodedInstruction::EI => CpuView { creg: CregView { sr: SrFlags { ie: true, ..v.creg.sr }, ..v.creg }, ..v },
        DecodedInstruction::DI => CpuView { creg: CregView { sr: SrFlags { ie: false, ..v.creg.sr }, ..v.creg }, ..v },
        DecodedInstruction::RdPc { rd } => with_reg(v, rd, v.creg.pc),
        DecodedInstruction::Mrs { creg4, rd } => with_reg(v, rd, creg_value(v.creg, creg4)),
        DecodedInstruction::Msr { creg4, rs } => CpuView { creg: creg_written(v.creg, creg4, reg(v, rs)), ..v },
        _ => v,
    }
}

/// The arithmetic, logical, shift and bit instructions.
pub open spec fn exec_alu(v: CpuView, i: DecodedInstruction) -> CpuView {
    match i {
        DecodedInstruction::Add { rd, ra, rb } => added(v, rd, reg(v, ra), reg(v, rb)),
        DecodedInstruction::Sub { rd, ra, rb } => subtracted(v, rd, reg(v, ra), reg(v, rb)),
        DecodedInstruction::And { rd, ra, rb } => logical(v, rd, reg(v, ra) & reg(v, rb)),
        DecodedInstruction::Or { rd, ra, rb } => logical(v, rd, reg(v, ra) | reg(v, rb)),
        DecodedInstruction::Xor { rd, ra, rb } => logical(v, rd, reg(v, ra) ^ reg(v, rb)),
        DecodedInstruction::Not { rd, ra } => logical(v, rd, !reg(v, ra)),
        DecodedInstruction::Neg { rd, ra } => negated(v, rd, reg(v, ra)),
        DecodedInstruction::Cmp { ra, rb } => compared(v, reg(v, ra), reg(v, rb)),
        DecodedInstruction::Addi { rd, ra, imm } => added(v, rd, reg(v, ra), imm),
        DecodedInstruction::Subi { rd, ra, imm } => subtracted(v, rd, reg(v, ra), imm),
        DecodedInstruction::Cmpi { ra, imm } => compared(v, reg(v, ra), imm),
        DecodedInstruction::Andi { rd, ra, imm } => logical(v, rd, reg(v, ra) & imm),
        DecodedInstruction::Ori { rd, ra, imm } => logical(v, rd, reg(v, ra) | imm),
        DecodedInstruction::Xori { rd, ra, imm } => logical(v, rd, reg(v, ra) ^ imm),
        DecodedInstruction::Shl { rd, ra, rb } => shl_result(v, rd, reg(v, ra), reg(v, rb)),
        DecodedInstruction::Shr { rd, ra, rb } => shr_result(v, rd, reg(v, ra), reg(v, rb)),
        DecodedInstruction::Sar { rd, ra, rb } => sar_result(v, rd, reg(v, ra), reg(v, rb)),
        DecodedInstruction::Shli { rd, ra, imm } => shl_result(v, rd, reg(v, ra), imm as u32),
        DecodedInstruction::Shri { rd, ra, imm } => shr_result(v, rd, reg(v, ra), imm as u32),
        DecodedInstruction::Sari { rd, ra, imm } => sar_result(v, rd, reg(v, ra), imm as u32),
        DecodedInstruction::Btst { ra, imm } => with_flags(v, false, reg(v, ra) & bit_mask(imm) == 0, false, false, false),
        DecodedInstruction::Bset { rd, ra, imm } => logical(v, rd, reg(v, ra) | bit_mask(imm)),
        DecodedInstruction::Bclr { rd, ra, imm } => logical(v, rd, reg(v, ra) & !bit_mask(imm)),
        DecodedInstruction::Btgl { rd, ra, imm } => logical(v, rd, reg(v, ra) ^ bit_mask(imm)),
        _ => v,
    }
}

/// Multiply, divide and constant construction.
pub open spec fn exec_muldiv_const(v: CpuView, i: DecodedInstruction) -> CpuView {
    match i {
        DecodedInstruction::Mul { rd0, rd1, ra, rb } => mul_result(v, rd0, rd1, reg(v, ra), reg(v, rb)),
        DecodedInstruction::Mulu { rd0, rd1, ra, rb } => mulu_result(v, rd0, rd1, reg(v, ra), reg(v, rb)),
        DecodedInstruction::Div { rd0, rd1, ra, rb } => div_result(v, rd0, rd1, reg(v, ra), reg(v, rb)),
        DecodedInstruction::Divu { rd0, rd1, ra, rb } => divu_result(v, rd0, rd1, reg(v, ra), reg(v, rb)),
        DecodedInstruction::Lui { rd, imm16 } => logical(v, rd, ((imm16 as u32) * 0x10000) as u32),
        DecodedInstruction::Lli { rd, imm16 } => with_flags(with_reg(v, rd, imm16 as u32), false, imm16 == 0, false, false, false),
        DecodedInstruction::Lhi { rd, imm16 } => logical(v, rd, (((imm16 as u32) * 0x10000) as u32) | reg(v, rd)),
        _ => v,
    }
}

/// Loads and stores.
pub open spec fn exec_memory(v: CpuView, i: DecodedInstruction) -> CpuView {
    match i {
        DecodedInstruction::Lb { rd, base, offset } => load8(v, rd, base, offset, true),
        DecodedInstruction::Lbu { rd, base, offset } => load8(v, rd, base, offset, false),
        DecodedInstruction::Lh { rd, base, offset } => load16(v, rd, base, offset, true),
        DecodedInstruction::Lhu { rd, base, offset } => load16(v, rd, base, offset, false),
        DecodedInstruction::Lw { rd, base, offset } => load32(v, rd, base, offset),
        DecodedInstruction::Sb { rs, base, offset } => store8(v, rs, base, offset),
        DecodedInstruction::Sh { rs, base, offset } => store16(v, rs, base, offset),
        DecodedInstruction::Sw { rs, base, offset } => store32(v, rs, base, offset),
        _ => v,
    }
}

/// Branches, jumps and calls; the PC already holds the next instruction's address.
pub open spec fn exec_flow(v: CpuView, i: DecodedInstruction) -> CpuView {
    match i {
        DecodedInstruction::BfEq { offset }
        | DecodedInstruction::BfNe { offset }
        | DecodedInstruction::BfLt { offset }
        | DecodedInstruction::BfLe { offset }
        | DecodedInstruction::BfGt { offset }
        | DecodedInstruction::BfGe { offset }
        | DecodedInstruction::BfLtu { offset }
        | DecodedInstruction::BfLeu { offset }
        | DecodedInstruction::BfGtu { offset }
        | DecodedInstruction::BfGeu { offset }
        | DecodedInstruction::BfCs { offset }
        | DecodedInstruction::BfCc { offset }
        | DecodedInstruction::BfVs { offset }
        | DecodedInstruction::BfVc { offset }
        | DecodedInstruction::BfEs { offset }
        | DecodedInstruction::BfEc { offset } => jumped(v, offset, flag_condition(i, v.creg.sr)),
        DecodedInstruction::BEq { ra, rb, offset }
        | DecodedInstruction::BNe { ra, rb, offset }
        | DecodedInstruction::BLt { ra, rb, offset }
        | DecodedInstruction::BLe { ra, rb, offset }
        | DecodedInstruction::BGt { ra, rb, offset }
        | DecodedInstruction::BGe { ra, rb, offset }
        | DecodedInstruction::BLtu { ra, rb, offset }
        | DecodedInstruction::BLeu { ra, rb, offset }
        | DecodedInstruction::BGtu { ra, rb, offset }
        | DecodedInstruction::BGeu { ra, rb, offset } => jumped(v, offset, compare_condition(i, reg(v, ra), reg(v, rb))),
        DecodedInstruction::Jmp { offset } => jumped(v, offset, true),
        DecodedInstruction::Call { offset } => jumped(with_reg(v, 15, v.creg.pc), offset, true),
        DecodedInstruction::Jr { target } => with_pc(v, reg(v, target)),
        DecodedInstruction::Jalr { rd, target } => {
            let v1 = with_reg(v, rd, v.creg.pc);
            with_pc(v1, reg(v1, target))
        },
        _ => v,
    }
}

/// The instruction group an instruction belongs to.
pub ghost enum InstructionGroup {
    Control,
    Alu,
    MulDivConst,
    Memory,
    Flow,
}

pub open spec fn group_of(i: DecodedInstruction) -> InstructionGroup {
    match i {
        DecodedInstruction::Nop
        | DecodedInstruction::Halt
        | DecodedInstruction::SoftwareTrap { .. }
        | DecodedInstruction::SystemCall
        | DecodedInstruction::IRet
        | DecodedInstruction::EI
        | DecodedInstruction::DI
        | DecodedInstruction::RdPc { .. }
        | DecodedInstruction::Mrs { .. }
        | DecodedInstruction::Msr { .. } => InstructionGroup::Control,
        DecodedInstruction::Mul { .. }
        | DecodedInstruction::Mulu { .. }
        | DecodedInstruction::Div { .. }
        | DecodedInstruction::Divu { .. }
        | DecodedInstruction::Lui { .. }
        | DecodedInstruction::Lli { .. }
        | DecodedInstruction::Lhi { .. } => InstructionGroup::MulDivConst,
        DecodedInstruction::Lb { .. }
        | DecodedInstruction::Lbu { .. }
        | DecodedInstruction::Lh { .. }
        | DecodedInstruction::Lhu { .. }
        | DecodedInstruction::Lw { .. }
        | DecodedInstruction::Sb { .. }
        | DecodedInstruction::Sh { .. }
        | DecodedInstruction::Sw { .. } => InstructionGroup::Memory,
        DecodedInstruction::BfEq { .. }
        | DecodedInstruction::BfNe { .. }
        | DecodedInstruction::BfLt { .. }
        | DecodedInstruction::BfLe { .. }
        | DecodedInstruction::BfGt { .. }
        | DecodedInstruction::BfGe { .. }
        | DecodedInstruction::BfLtu { .. }
        | DecodedInstruction::BfLeu { .. }
        | DecodedInstruction::BfGtu { .. }
        | DecodedInstruction::BfGeu { .. }
        | DecodedInstruction::BfCs { .. }
        | DecodedInstruction::BfCc { .. }
        | DecodedInstruction::BfVs { .. }
        | DecodedInstruction::BfVc { .. }
        | DecodedInstruction::BfEs { .. }
        | DecodedInstruction::BfEc { .. }
        | DecodedInstruction::BEq { .. }
        | DecodedInstruction::BNe { .. }
        | DecodedInstruction::BLt { .. }
        | DecodedInstruction::BLe { .. }
        | DecodedInstruction::BGt { .. }
        | DecodedInstruction::BGe { .. }
        | DecodedInstruction::BLtu { .. }
        | DecodedInstruction::BLeu { .. }
        | DecodedInstruction::BGtu { .. }
        | DecodedInstruction::BGeu { .. }
        | DecodedInstruction::Jmp { .. }
        | DecodedInstruction::Call { .. }
        | DecodedInstruction::Jr { .. }
        | DecodedInstruction::Jalr { .. } => InstructionGroup::Flow,
        _ => InstructionGroup::Alu,
    }
}

/// What executing a decoded instruction does to the state.
pub open spec fn executed(v: CpuView, i: DecodedInstruction) -> CpuView {
    match group_of(i) {
        InstructionGroup::Control => exec_control(v, i),
        InstructionGroup::Alu => exec_alu(v, i),
        InstructionGroup::MulDivConst => exec_muldiv_const(v, i),
        InstructionGroup::Memory => exec_memory(v, i),
        InstructionGroup::Flow => exec_flow(v, i),
    }
}

/// Fetch, decode and execute one instruction, then advance the devices. A
/// halted processor does nothing. A failed fetch or an undecodable word raises
/// an exception with the fetch address in EDATA.
pub open spec fn fetched_and_executed(v: CpuView) -> CpuView {
    if v.halted {
        v
    } else {
        let pc = v.creg.pc;
        let (bus, r) = bus_read32(v.bus, pc);
        let v1 = CpuView { bus, ..v };
        let v2 = match r {
            Err(e) => if e is MisalignedAccess {
                raised(v1, ExceptionCause::MisalignedInstructionFetch, pc)
            } else {
                raised(v1, ExceptionCause::BusError, pc)
            },
            Ok(word) => {
                let v3 = with_pc(v1, wrap32(pc + 4));
                match spec_cpu_decode(word) {
                    Ok(d) => executed(v3, d),
                    Err(_) => raised(v3, ExceptionCause::IllegalInstruction, pc),
                }
            },
        };
        CpuView { bus: bus_tick(v2.bus), ..v2 }
    }
}

/// With interrupts enabled, the first asserting IRQ line raises its interrupt.
pub open spec fn interrupts_taken(v: CpuView) -> CpuView {
    if !v.creg.sr.ie {
        v
    } else {
        match pending_from(v.bus, 0) {
            Some(PendingInterrupt::Timer) => raised(v, ExceptionCause::TimerInterrupt, 0),
            Some(PendingInterrupt::External { source }) => raised(v, ExceptionCause::ExternalInterrupt, source),
            None => v,
        }
    }
}

/// One processor clock tick.
pub open spec fn ticked(v: CpuView) -> CpuView {
    interrupts_taken(fetched_and_executed(v))
}

/// Every instruction the decoder produces names only the sixteen registers.
pub proof fn lemma_decoded_operands_valid(raw: u32)
    ensures
        spec_cpu_decode(raw) matches Ok(d) ==> operands_valid(d),
{
    crate::isa::fields::lemma_field_bounds(raw);
}

/// Register r0 reads as zero whatever is written to it; a write to another
/// register is read back, and every other register keeps its value.
pub proof fn lemma_register_write_read(v: CpuView, r: u8, value: u32, other: u8)
    requires
        v.gpr.len() == 16,
        v.gpr[0] == 0,
        r < 16,
        other < 16,
        other != r,
    ensures
        reg(with_reg(v, r, value), 0) == 0,
        r != 0 ==> reg(with_reg(v, r, value), r) == value,
        reg(with_reg(v, r, value), other) == reg(v, other),
{
}

/// Returning from any exception restores the PC and status register that the
/// exception saved, and leaves registers, bus and run state as the exception found them.
pub proof fn lemma_exception_then_iret(v: CpuView, cause: ExceptionCause, data: u32)
    ensures
        executed(raised(v, cause, data), DecodedInstruction::IRet).creg.pc == v.creg.pc,
        executed(raised(v, cause, data), DecodedInstruction::IRet).creg.sr == v.creg.sr,
        executed(raised(v, cause, data), DecodedInstruction::IRet).gpr == v.gpr,
        executed(raised(v, cause, data), DecodedInstruction::IRet).bus == v.bus,
        executed(raised(v, cause, data), DecodedInstruction::IRet).halted == v.halted,
{
}

/// A software trap followed by IRET in its handler resumes after the trap.
pub proof fn lemma_trap_then_iret(v: CpuView, imm: i32)
    ensures
        executed(executed(v, DecodedInstruction::SoftwareTrap { imm }), DecodedInstruction::IRet).creg.pc == v.creg.pc,
        executed(executed(v, DecodedInstruction::SoftwareTrap { imm }), DecodedInstruction::IRet).creg.sr == v.creg.sr,
        executed(executed(v, DecodedInstruction::SoftwareTrap { imm }), DecodedInstruction::IRet).gpr == v.gpr,
{
    lemma_exception_then_iret(v, ExceptionCause::SoftwareTrap, wrap32(imm as int));
}

/// A taken interrupt, followed by IRET, resumes where the interrupt struck
/// with the status register as it was, interrupts enabled.
pub proof fn lemma_interrupt_then_iret(v: CpuView)
    requires
        v.creg.sr.ie,
        pending_from(v.bus, 0) is Some,
    ensures
        !interrupts_taken(v).creg.sr.ie,
        executed(interrupts_taken(v), DecodedInstruction::IRet).creg.pc == v.creg.pc,
        executed(interrupts_taken(v), DecodedInstruction::IRet).creg.sr == v.creg.sr,
        executed(interrupts_taken(v), DecodedInstruction::IRet).creg.sr.ie,
{
    match pending_from(v.bus, 0) {
        Some(PendingInterrupt::Timer) => lemma_exception_then_iret(v, ExceptionCause::TimerInterrupt, 0),
        Some(PendingInterrupt::External { source }) => lemma_exception_then_iret(v, ExceptionCause::ExternalInterrupt, source),
        None => {},
    }
}

/// `xori` writes the bits where the register and the immediate differ: a bit
/// set in both comes out clear and a bit set in just one comes out set, so a
/// second `xori` with the same immediate gives the register back.
pub proof fn lemma_xori_flips_immediate_bits(v: CpuView, rd: u8, ra: u8, imm: u32)
    requires
        v.gpr.len() == 16,
        rd < 16,
        ra < 16,
        rd != 0,
    ensures
        ({
            let r = reg(executed(v, DecodedInstruction::Xori { rd, ra, imm }), rd);
            let a = reg(v, ra);
            &&& r & (a & imm) == 0
            &&& r | (a & imm) == a | imm
        }),
        reg(
            executed(executed(v, DecodedInstruction::Xori { rd, ra: rd, imm }), DecodedInstruction::Xori { rd, ra: rd, imm }),
            rd,
        ) == reg(v, rd),
{
    let a = reg(v, ra);
    let b = reg(v, rd);
    assert((a ^ imm) & (a & imm) == 0 && (a ^ imm) | (a & imm) == a | imm) by (bit_vector);
    assert((b ^ imm) ^ imm == b) by (bit_vector);
}

} // verus!
