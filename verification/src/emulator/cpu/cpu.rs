//! The processor: fetch, decode, execute and interrupt entry.
use vstd::prelude::*;

use crate::emulator::lifecycle::Lifecycle;
use crate::emulator::platform::error::SystemBusError;
use crate::emulator::platform::system_bus::{bus_reset, bus_wf, PendingInterrupt, SystemBus};
use crate::word::{add_signed_wrapping, add_wrapping, i32_of_word, signed32, sub_wrapping, word_of_i32, wrap32};

use super::creg_file::{creg_reset, Creg, CregFile, CregView};
use super::decode::{decode, DecodedInstruction};
use super::exception_cause::ExceptionCause;
use super::gpr::{zero_registers, GprFile};
use super::semantics::{
    abs, access_fault, added, bit_mask, compared, executed, fetched_and_executed, interrupts_taken, jumped,
    lemma_decoded_operands_valid, load16, load32, load8, logical, mul_result, mulu_result, negated,
    operands_valid, product_written, reg, sar_result, shl_result, shr_result, store16, store32, store8,
    subtracted, ticked, trunc_quotient, with_pc, with_reg, wrap64, CpuView, div_result, divu_result,
};
use super::status::reset_flags;

verus! {

/// Whether the processor executes instructions.
#[derive(Debug, Clone, Copy, PartialEq, Eq, Structural)]
pub enum CpuState {
    Running,
    Halted,
}

/// The processor together with the bus it fetches from.
pub struct Cpu {
    gpr: GprFile,
    creg: CregFile,
    bus: SystemBus,
    state: CpuState,
}

impl View for Cpu {
    type V = CpuView;

    closed spec fn view(&self) -> CpuView {
        CpuView { gpr: self.gpr@, creg: self.creg@, bus: self.bus@, halted: self.state is Halted }
    }
}

/// The remainder of a division rounded toward zero has the dividend's sign
/// and the magnitude of the magnitudes' remainder.
proof fn lemma_trunc_remainder(x: int, y: int)
    requires
        y != 0,
    ensures
        x - trunc_quotient(x, y) * y == (if x < 0 { -(abs(x) % abs(y)) } else { abs(x) % abs(y) }),
{
    let ax = abs(x);
    let ay = abs(y);
    let q = ax / ay;
    let r = ax % ay;
    vstd::arithmetic::div_mod::lemma_fundamental_div_mod(ax, ay);
    assert(ax == ay * q + r);
    if x < 0 && y < 0 {
        assert(x - q * y == -r) by (nonlinear_arith)
            requires
                ax == ay * q + r,
                ax == -x,
                ay == -y,
        ;
    } else if x < 0 {
        assert(x - (-q) * y == -r) by (nonlinear_arith)
            requires
                ax == ay * q + r,
                ax == -x,
                ay == y,
        ;
    } else if y < 0 {
        assert(x - (-q) * y == r) by (nonlinear_arith)
            requires
                ax == ay * q + r,
                ax == x,
                ay == -y,
        ;
    } else {
        assert(x - q * y == r) by (nonlinear_arith)
            requires
                ax == ay * q + r,
                ax == x,
                ay == y,
        ;
    }
}

impl Cpu {
    /// The bus is well formed and there are sixteen registers, of which r0 reads as zero.
    pub open spec fn wf(&self) -> bool {
        bus_wf(self@.bus) && self@.gpr.len() == 16 && self@.gpr[0] == 0
    }

    /// A halted processor with reset registers on `bus`.
    pub fn new(bus: SystemBus) -> (c: Self)
        requires
            bus.wf(),
        ensures
            c.wf(),
            c@ == (CpuView {
                gpr: zero_registers(),
                creg: CregView { pc: 0, sr: reset_flags(), epc: 0, esr: reset_flags(), ecause: 0, edata: 0, evbase: 0 },
                bus: bus@,
                halted: true,
            }),
    {
        Self { gpr: GprFile::new(), creg: CregFile::new(), bus, state: CpuState::Halted }
    }

    /// The value of general-purpose register `index`.
    pub fn read_gpr(&self, index: u8) -> (r: u32)
        requires
            self.wf(),
            index < 16,
        ensures
            r == reg(self@, index),
    {
        self.gpr.read(index as usize)
    }

    /// Writes general-purpose register `index`; writes to r0 are discarded.
    pub fn write_gpr(&mut self, index: u8, value: u32)
        requires
            old(self).wf(),
            index < 16,
        ensures
            final(self).wf(),
            final(self)@ == with_reg(old(self)@, index, value),
    {
        self.gpr.write(index as usize, value);
    }

    fn reset_internal(&mut self)
        requires
            old(self).wf(),
        ensures
            final(self).wf(),
            final(self)@ == (CpuView { gpr: zero_registers(), creg: creg_reset(old(self)@.creg), bus: bus_reset(old(self)@.bus), halted: false }),
    {
        // Reset is vector cause 0: the PC moves to the reset slot of the
        // current vector base, where the reset stub jumps to boot code.
        self.gpr.reset();
        self.creg.reset();
        self.state = CpuState::Running;
        self.bus.reset();
    }

    /// Resets registers and devices and starts executing at the reset vector.
    pub fn reset(&mut self)
        requires
            old(self).wf(),
        ensures
            final(self).wf(),
            final(self)@ == (CpuView { gpr: zero_registers(), creg: creg_reset(old(self)@.creg), bus: bus_reset(old(self)@.bus), halted: false }),
    {
        self.reset_internal();
    }

    /// Stops instruction execution.
    pub fn halt(&mut self)
        ensures
            final(self)@ == (CpuView { halted: true, ..old(self)@ }),
    {
        self.state = CpuState::Halted;
    }

    pub fn is_halted(&self) -> (r: bool)
        ensures
            r == self@.halted,
    {
        self.state == CpuState::Halted
    }

    /// The control registers.
    pub fn creg(&self) -> (r: &CregFile)
        ensures
            r@ == self@.creg,
    {
        &self.creg
    }

    /// The control registers, for changing them.
    pub fn creg_mut(&mut self) -> (r: &mut CregFile)
        ensures
            r@ == old(self)@.creg,
            final(self)@ == (CpuView { creg: final(r)@, ..old(self)@ }),
    {
        &mut self.creg
    }

    /// The bus.
    pub fn bus(&self) -> (r: &SystemBus)
        ensures
            r@ == self@.bus,
    {
        &self.bus
    }

    /// The bus, for accessing memory and devices directly.
    pub fn bus_mut(&mut self) -> (r: &mut SystemBus)
        ensures
            r@ == old(self)@.bus,
            final(self)@ == (CpuView { bus: final(r)@, ..old(self)@ }),
    {
        &mut self.bus
    }

    fn check_interrupts(&mut self)
        requires
            old(self).wf(),
        ensures
            final(self).wf(),
            final(self)@ == interrupts_taken(old(self)@),
    {
        if !self.creg.sr().interrupt_enable() {
            return;
        }
        match self.bus.pending_interrupt_kind() {
            Some(PendingInterrupt::Timer) => {
                self.creg.raise_exception(ExceptionCause::TimerInterrupt, 0);
            },
            Some(PendingInterrupt::External { source }) => {
                self.creg.raise_exception(ExceptionCause::ExternalInterrupt, source);
            },
            None => {},
        }
    }

    fn tick_with_bus(&mut self)
        requires
            old(self).wf(),
        ensures
            final(self).wf(),
            final(self)@ == fetched_and_executed(old(self)@),
    {
        if self.is_halted() {
            return;
        }
        let fetch_pc = self.creg.read_register(Creg::PC);
        let instruction = match self.bus.read32(fetch_pc) {
            Ok(instruction) => instruction,
            // Misalignment during a fetch is the architectural misaligned
            // instruction fetch.
            Err(SystemBusError::MisalignedAccess { .. }) => {
                self.creg.raise_exception(ExceptionCause::MisalignedInstructionFetch, fetch_pc);
                self.bus.tick();
                return;
            },
            // Nothing answers at the address, or the device refuses the access.
            Err(_) => {
                self.creg.raise_exception(ExceptionCause::BusError, fetch_pc);
                self.bus.tick();
                return;
            },
        };
        self.creg.advance_pc_word();
        match decode(instruction) {
            Ok(decoded) => {
                proof {
                    lemma_decoded_operands_valid(instruction);
                }
                self.execute(decoded);
            },
            Err(_) => self.creg.raise_exception(ExceptionCause::IllegalInstruction, fetch_pc),
        }
        self.bus.tick();
    }

    /// Executes one decoded instruction; the PC already points past it.
    #[verifier::rlimit(50)]
    pub fn execute(&mut self, instruction: DecodedInstruction)
        requires
            old(self).wf(),
            operands_valid(instruction),
        ensures
            final(self).wf(),
            final(self)@ == executed(old(self)@, instruction),
    {
        match instruction {
            // Control instructions; these do not set flags.
            DecodedInstruction::Nop => (),
            DecodedInstruction::Halt => self.halt(),
            DecodedInstruction::SoftwareTrap { imm } => self.creg.raise_exception(ExceptionCause::SoftwareTrap, word_of_i32(imm)),
            DecodedInstruction::SystemCall => self.creg.raise_exception(ExceptionCause::SystemCall, 0),
            DecodedInstruction::IRet => self.creg.iret(),
            DecodedInstruction::EI => self.creg.ei(),
            DecodedInstruction::DI => self.creg.di(),
            DecodedInstruction::RdPc { rd } => {
                let pc = self.creg.read_register(Creg::PC);
                self.write_gpr(rd, pc);
            },
            DecodedInstruction::Mrs { creg4, rd } => {
                let value = self.creg.read_register(creg4);
                self.write_gpr(rd, value);
            },
            DecodedInstruction::Msr { creg4, rs } => {
                let value = self.read_gpr(rs);
                self.creg.write_register(creg4, value);
            },
            // Register ALU
            DecodedInstruction::Add { rd, ra, rb } => {
                let b = self.read_gpr(rb);
                self.execute_add(rd, ra, b);
            },
            DecodedInstruction::Sub { rd, ra, rb } => {
                let b = self.read_gpr(rb);
                self.execute_sub(rd, ra, b);
            },
            DecodedInstruction::And { rd, ra, rb } => {
                let value = self.read_gpr(ra) & self.read_gpr(rb);
                self.write_logical(rd, value);
            },
            DecodedInstruction::Or { rd, ra, rb } => {
                let value = self.read_gpr(ra) | self.read_gpr(rb);
                self.write_logical(rd, value);
            },
            DecodedInstruction::Xor { rd, ra, rb } => {
                let value = self.read_gpr(ra) ^ self.read_gpr(rb);
                self.write_logical(rd, value);
            },
            DecodedInstruction::Not { rd, ra } => {
                let value = !self.read_gpr(ra);
                self.write_logical(rd, value);
            },
            DecodedInstruction::Neg { rd, ra } => self.execute_neg(rd, ra),
            DecodedInstruction::Cmp { ra, rb } => {
                let b = self.read_gpr(rb);
                self.execute_compare(ra, b);
            },
            // Immediate arithmetic and compare
            DecodedInstruction::Addi { rd, ra, imm } => self.execute_add(rd, ra, imm),
            DecodedInstruction::Subi { rd, ra, imm } => self.execute_sub(rd, ra, imm),
            DecodedInstruction::Cmpi { ra, imm } => self.execute_compare(ra, imm),
            // Immediate logical
            DecodedInstruction::Andi { rd, ra, imm } => {
                let value = self.read_gpr(ra) & imm;
                self.write_logical(rd, value);
            },
            DecodedInstruction::Ori { rd, ra, imm } => {
                let value = self.read_gpr(ra) | imm;
                self.write_logical(rd, value);
            },
            DecodedInstruction::Xori { rd, ra, imm } => {
                let value = self.read_gpr(ra) ^ imm;
                self.write_logical(rd, value);
            },
            // Register shifts
            DecodedInstruction::Shl { rd, ra, rb } => {
                let count = self.read_gpr(rb);
                self.execute_shl(rd, ra, count);
            },
            DecodedInstruction::Shr { rd, ra, rb } => {
                let count = self.read_gpr(rb);
                self.execute_shr(rd, ra, count);
            },
            DecodedInstruction::Sar { rd, ra, rb } => {
                let count = self.read_gpr(rb);
                self.execute_sar(rd, ra, count);
            },
            // Immediate shifts
            DecodedInstruction::Shli { rd, ra, imm } => self.execute_shl(rd, ra, imm as u32),
            DecodedInstruction::Shri { rd, ra, imm } => self.execute_shr(rd, ra, imm as u32),
            DecodedInstruction::Sari { rd, ra, imm } => self.execute_sar(rd, ra, imm as u32),
            // Bit immediate
            DecodedInstruction::Btst { ra, imm } => {
                let value = self.read_gpr(ra) & Self::bit_mask(imm);
                self.creg.update_sr_flags(false, value == 0, false, false, false);
            },
            DecodedInstruction::Bset { rd, ra, imm } => {
                let value = self.read_gpr(ra) | Self::bit_mask(imm);
                self.write_logical(rd, value);
            },
            DecodedInstruction::Bclr { rd, ra, imm } => {
                let value = self.read_gpr(ra) & !Self::bit_mask(imm);
                self.write_logical(rd, value);
            },
            DecodedInstruction::Btgl { rd, ra, imm } => {
                let value = self.read_gpr(ra) ^ Self::bit_mask(imm);
                self.write_logical(rd, value);
            },
            // Multiply and divide
            DecodedInstruction::Mul { rd0, rd1, ra, rb } => self.execute_mul(rd0, rd1, ra, rb),
            DecodedInstruction::Mulu { rd0, rd1, ra, rb } => self.execute_mulu(rd0, rd1, ra, rb),
            DecodedInstruction::Div { rd0, rd1, ra, rb } => self.execute_div(rd0, rd1, ra, rb),
            DecodedInstruction::Divu { rd0, rd1, ra, rb } => self.execute_divu(rd0, rd1, ra, rb),
            // Constant construction
            DecodedInstruction::Lui { rd, imm16 } => self.write_logical(rd, (imm16 as u32) * 0x10000),
            DecodedInstruction::Lli { rd, imm16 } => {
                self.write_gpr(rd, imm16 as u32);
                self.creg.update_sr_flags(false, imm16 == 0, false, false, false);
            },
            DecodedInstruction::Lhi { rd, imm16 } => {
                let value = ((imm16 as u32) * 0x10000) | self.read_gpr(rd);
                self.write_logical(rd, value);
            },
            // Load and store
            DecodedInstruction::Lb { rd, base, offset } => self.execute_load8(rd, base, offset, true),
            DecodedInstruction::Lbu { rd, base, offset } => self.execute_load8(rd, base, offset, false),
            DecodedInstruction::Lh { rd, base, offset } => self.execute_load16(rd, base, offset, true),
            DecodedInstruction::Lhu { rd, base, offset } => self.execute_load16(rd, base, offset, false),
            DecodedInstruction::Lw { rd, base, offset } => self.execute_load32(rd, base, offset),
            DecodedInstruction::Sb { rs, base, offset } => self.execute_store8(rs, base, offset),
            DecodedInstruction::Sh { rs, base, offset } => self.execute_store16(rs, base, offset),
            DecodedInstruction::Sw { rs, base, offset } => self.execute_store32(rs, base, offset),
            // Branch on flag
            DecodedInstruction::BfEq { offset } => {
                let taken = self.creg.sr().zero();
                self.execute_jmp(offset, taken);
            },
            DecodedInstruction::BfNe { offset } => {
                let taken = !self.creg.sr().zero();
                self.execute_jmp(offset, taken);
            },
            DecodedInstruction::BfLt { offset } => {
                let taken = self.creg.sr().negative() != self.creg.sr().overflow();
                self.execute_jmp(offset, taken);
            },
            DecodedInstruction::BfLe { offset } => {
                let taken = self.creg.sr().zero() || self.creg.sr().negative() != self.creg.sr().overflow();
                self.execute_jmp(offset, taken);
            },
            DecodedInstruction::BfGt { offset } => {
                let taken = !self.creg.sr().zero() && self.creg.sr().negative() == self.creg.sr().overflow();
                self.execute_jmp(offset, taken);
            },
            DecodedInstruction::BfGe { offset } => {
                let taken = self.creg.sr().negative() == self.creg.sr().overflow();
                self.execute_jmp(offset, taken);
            },
            DecodedInstruction::BfLtu { offset } => {
                let taken = !self.creg.sr().carry();
                self.execute_jmp(offset, taken);
            },
            DecodedInstruction::BfLeu { offset } => {
                let taken = !self.creg.sr().carry() || self.creg.sr().zero();
                self.execute_jmp(offset, taken);
            },
            DecodedInstruction::BfGtu { offset } => {
                let taken = self.creg.sr().carry() && !self.creg.sr().zero();
                self.execute_jmp(offset, taken);
            },
            DecodedInstruction::BfGeu { offset } => {
                let taken = self.creg.sr().carry();
                self.execute_jmp(offset, taken);
            },
            DecodedInstruction::BfCs { offset } => {
                let taken = self.creg.sr().carry();
                self.execute_jmp(offset, taken);
            },
            DecodedInstruction::BfCc { offset } => {
                let taken = !self.creg.sr().carry();
                self.execute_jmp(offset, taken);
            },
            DecodedInstruction::BfVs { offset } => {
                let taken = self.creg.sr().overflow();
                self.execute_jmp(offset, taken);
            },
            DecodedInstruction::BfVc { offset } => {
                let taken = !self.creg.sr().overflow();
                self.execute_jmp(offset, taken);
            },
            DecodedInstruction::BfEs { offset } => {
                let taken = self.creg.sr().arithmetic_error();
                self.execute_jmp(offset, taken);
            },
            DecodedInstruction::BfEc { offset } => {
                let taken = !self.creg.sr().arithmetic_error();
                self.execute_jmp(offset, taken);
            },
            // Branch on register comparison
            DecodedInstruction::BEq { ra, rb, offset } => {
                let taken = self.read_gpr(ra) == self.read_gpr(rb);
                self.execute_jmp(offset, taken);
            },
            DecodedInstruction::BNe { ra, rb, offset } => {
                let taken = self.read_gpr(ra) != self.read_gpr(rb);
                self.execute_jmp(offset, taken);
            },
            DecodedInstruction::BLt { ra, rb, offset } => {
                let taken = i32_of_word(self.read_gpr(ra)) < i32_of_word(self.read_gpr(rb));
                self.execute_jmp(offset, taken);
            },
            DecodedInstruction::BLe { ra, rb, offset } => {
                let taken = i32_of_word(self.read_gpr(ra)) <= i32_of_word(self.read_gpr(rb));
                self.execute_jmp(offset, taken);
            },
            DecodedInstruction::BGt { ra, rb, offset } => {
                let taken = i32_of_word(self.read_gpr(ra)) > i32_of_word(self.read_gpr(rb));
                self.execute_jmp(offset, taken);
            },
            DecodedInstruction::BGe { ra, rb, offset } => {
                let taken = i32_of_word(self.read_gpr(ra)) >= i32_of_word(self.read_gpr(rb));
                self.execute_jmp(offset, taken);
            },
            DecodedInstruction::BLtu { ra, rb, offset } => {
                let taken = self.read_gpr(ra) < self.read_gpr(rb);
                self.execute_jmp(offset, taken);
            },
            DecodedInstruction::BLeu { ra, rb, offset } => {
                let taken = self.read_gpr(ra) <= self.read_gpr(rb);
                self.execute_jmp(offset, taken);
            },
            DecodedInstruction::BGtu { ra, rb, offset } => {
                let taken = self.read_gpr(ra) > self.read_gpr(rb);
                self.execute_jmp(offset, taken);
            },
            DecodedInstruction::BGeu { ra, rb, offset } => {
                let taken = self.read_gpr(ra) >= self.read_gpr(rb);
                self.execute_jmp(offset, taken);
            },
            // Jump/call immediate
            DecodedInstruction::Jmp { offset } => self.execute_jmp(offset, true),
            DecodedInstruction::Call { offset } => self.execute_call(offset),
            // Jump/call register
            DecodedInstruction::Jr { target } => self.execute_jr(target),
            DecodedInstruction::Jalr { rd, target } => self.execute_jalr(rd, target),
        }
    }

    ///////////////////////////////////////////////////////////////////////////
    // ALU
    fn execute_add(&mut self, rd: u8, ra: u8, b: u32)
        requires
            old(self).wf(),
            rd < 16,
            ra < 16,
        ensures
            final(self).wf(),
            final(self)@ == added(old(self)@, rd, reg(old(self)@, ra), b),
    {
        let a = self.read_gpr(ra);
        let result = add_wrapping(a, b);
        let carry = (a as u64) + (b as u64) > 0xFFFF_FFFFu64;
        let sum = (i32_of_word(a) as i64) + (i32_of_word(b) as i64);
        let overflow = sum < -0x8000_0000i64 || sum >= 0x8000_0000i64;
        self.write_gpr(rd, result);
        self.creg.update_sr_flags(false, result == 0, result >= 0x8000_0000, carry, overflow);
    }

    fn execute_sub(&mut self, rd: u8, ra: u8, b: u32)
        requires
            old(self).wf(),
            rd < 16,
            ra < 16,
        ensures
            final(self).wf(),
            final(self)@ == subtracted(old(self)@, rd, reg(old(self)@, ra), b),
    {
        let a = self.read_gpr(ra);
        let result = sub_wrapping(a, b);
        let difference = (i32_of_word(a) as i64) - (i32_of_word(b) as i64);
        let overflow = difference < -0x8000_0000i64 || difference >= 0x8000_0000i64;
        self.write_gpr(rd, result);
        self.creg.update_sr_flags(false, result == 0, result >= 0x8000_0000, a >= b, overflow);
    }

    /// Writes a logical result and its flags.
    fn write_logical(&mut self, rd: u8, value: u32)
        requires
            old(self).wf(),
            rd < 16,
        ensures
            final(self).wf(),
            final(self)@ == logical(old(self)@, rd, value),
    {
        self.write_gpr(rd, value);
        self.creg.update_sr_flags(false, value == 0, value >= 0x8000_0000, false, false);
    }

    fn execute_neg(&mut self, rd: u8, ra: u8)
        requires
            old(self).wf(),
            rd < 16,
            ra < 16,
        ensures
            final(self).wf(),
            final(self)@ == negated(old(self)@, rd, reg(old(self)@, ra)),
    {
        let a = self.read_gpr(ra);
        let result = sub_wrapping(0, a);
        let overflow = a == 0x8000_0000;
        let carry = a == 0;
        self.write_gpr(rd, result);
        self.creg.update_sr_flags(false, result == 0, result >= 0x8000_0000, carry, overflow);
    }

    fn execute_compare(&mut self, ra: u8, b: u32)
        requires
            old(self).wf(),
            ra < 16,
        ensures
            final(self).wf(),
            final(self)@ == compared(old(self)@, reg(old(self)@, ra), b),
    {
        let a = self.read_gpr(ra);
        let difference = (i32_of_word(a) as i64) - (i32_of_word(b) as i64);
        let overflow = difference < -0x8000_0000i64 || difference >= 0x8000_0000i64;
        let result = sub_wrapping(a, b);
        self.creg.update_sr_flags(false, a == b, result >= 0x8000_0000, a >= b, overflow);
    }

    ///////////////////////////////////////////////////////////////////////////
    // Shifts
    fn execute_shl(&mut self, rd: u8, ra: u8, count: u32)
        requires
            old(self).wf(),
            rd < 16,
            ra < 16,
        ensures
            final(self).wf(),
            final(self)@ == shl_result(old(self)@, rd, reg(old(self)@, ra), count),
    {
        if count > 31 {
            self.creg.update_sr_flags(true, false, false, false, false);
            return;
        }
        let value = self.read_gpr(ra);
        let carry = count != 0 && (value >> (32 - count)) & 1 == 1;
        let result = value << count;
        self.write_gpr(rd, result);
        self.creg.update_sr_flags(false, result == 0, result >= 0x8000_0000, carry, false);
    }

    fn execute_shr(&mut self, rd: u8, ra: u8, count: u32)
        requires
            old(self).wf(),
            rd < 16,
            ra < 16,
        ensures
            final(self).wf(),
            final(self)@ == shr_result(old(self)@, rd, reg(old(self)@, ra), count),
    {
        if count > 31 {
            self.creg.update_sr_flags(true, false, false, false, false);
            return;
        }
        let original = self.read_gpr(ra);
        let carry = count != 0 && (original >> (count - 1)) & 1 == 1;
        let result = original >> count;
        self.write_gpr(rd, result);
        self.creg.update_sr_flags(false, result == 0, result >= 0x8000_0000, carry, false);
    }

    fn execute_sar(&mut self, rd: u8, ra: u8, count: u32)
        requires
            old(self).wf(),
            rd < 16,
            ra < 16,
        ensures
            final(self).wf(),
            final(self)@ == sar_result(old(self)@, rd, reg(old(self)@, ra), count),
    {
        if count > 31 {
            self.creg.update_sr_flags(true, false, false, false, false);
            return;
        }
        let original = self.read_gpr(ra);
        let carry = count != 0 && (original >> (count - 1)) & 1 == 1;
        let result = if original >= 0x8000_0000 {
            !((!original) >> count)
        } else {
            original >> count
        };
        self.write_gpr(rd, result);
        self.creg.update_sr_flags(false, result == 0, result >= 0x8000_0000, carry, false);
    }

    ///////////////////////////////////////////////////////////////////////////
    // Bit immediate
    fn bit_mask(imm: u8) -> (r: u32)
        ensures
            r == bit_mask(imm),
    {
        let k = (imm % 32) as u32;
        1u32 << k
    }

    ///////////////////////////////////////////////////////////////////////////
    // Multiply and divide
    fn write_product(&mut self, rd0: u8, rd1: u8, w: u64)
        requires
            old(self).wf(),
            rd0 < 16,
            rd1 < 16,
        ensures
            final(self).wf(),
            final(self)@ == product_written(old(self)@, rd0, rd1, w as int),
    {
        let low = (w % 0x1_0000_0000) as u32;
        let high = (w / 0x1_0000_0000) as u32;
        self.write_gpr(rd0, low);
        self.write_gpr(rd1, high);
    }

    fn execute_mul(&mut self, rd0: u8, rd1: u8, ra: u8, rb: u8)
        requires
            old(self).wf(),
            rd0 < 16,
            rd1 < 16,
            ra < 16,
            rb < 16,
        ensures
            final(self).wf(),
            final(self)@ == mul_result(old(self)@, rd0, rd1, reg(old(self)@, ra), reg(old(self)@, rb)),
    {
        let a = i32_of_word(self.read_gpr(ra)) as i64;
        let b = i32_of_word(self.read_gpr(rb)) as i64;
        assert(-0x4000_0000_0000_0000 <= a * b <= 0x4000_0000_0000_0000) by (nonlinear_arith)
            requires
                -0x8000_0000 <= a < 0x8000_0000,
                -0x8000_0000 <= b < 0x8000_0000,
        ;
        let product = a * b;
        let pattern: u64 = if product >= 0 {
            product as u64
        } else {
            0xFFFF_FFFF_FFFF_FFFFu64 - ((-product - 1) as u64)
        };
        assert(pattern == wrap64(product as int));
        self.write_product(rd0, rd1, pattern);
        self.creg.update_sr_flags(false, product == 0, product < 0, false, false);
    }

    fn execute_mulu(&mut self, rd0: u8, rd1: u8, ra: u8, rb: u8)
        requires
            old(self).wf(),
            rd0 < 16,
            rd1 < 16,
            ra < 16,
            rb < 16,
        ensures
            final(self).wf(),
            final(self)@ == mulu_result(old(self)@, rd0, rd1, reg(old(self)@, ra), reg(old(self)@, rb)),
    {
        let a = self.read_gpr(ra) as u64;
        let b = self.read_gpr(rb) as u64;
        assert(a * b <= 0xFFFF_FFFE_0000_0001) by (nonlinear_arith)
            requires
                a <= 0xFFFF_FFFF,
                b <= 0xFFFF_FFFF,
        ;
        let product = a * b;
        self.write_product(rd0, rd1, product);
        self.creg.update_sr_flags(false, product == 0, false, false, false);
    }

    fn execute_div(&mut self, rd0: u8, rd1: u8, ra: u8, rb: u8)
        requires
            old(self).wf(),
            rd0 < 16,
            rd1 < 16,
            ra < 16,
            rb < 16,
        ensures
            final(self).wf(),
            final(self)@ == div_result(old(self)@, rd0, rd1, reg(old(self)@, ra), reg(old(self)@, rb)),
    {
        let dividend = i32_of_word(self.read_gpr(ra)) as i64;
        let divisor = i32_of_word(self.read_gpr(rb)) as i64;
        if divisor == 0 {
            self.creg.update_sr_flags(true, false, false, false, false);
            return;
        }
        if dividend == -0x8000_0000 && divisor == -1 {
            self.creg.update_sr_flags(true, false, false, false, true);
            return;
        }
        let magnitude_a: u64 = if dividend < 0 { (-dividend) as u64 } else { dividend as u64 };
        let magnitude_b: u64 = if divisor < 0 { (-divisor) as u64 } else { divisor as u64 };
        let magnitude_q = magnitude_a / magnitude_b;
        let magnitude_r = magnitude_a % magnitude_b;
        proof {
            vstd::arithmetic::div_mod::lemma_div_is_ordered_by_denominator(magnitude_a as int, 1, magnitude_b as int);
            if magnitude_b >= 2 {
                vstd::arithmetic::div_mod::lemma_div_is_ordered_by_denominator(magnitude_a as int, 2, magnitude_b as int);
            }
            lemma_trunc_remainder(dividend as int, divisor as int);
        }
        let quotient: i64 = if (dividend < 0) != (divisor < 0) { -(magnitude_q as i64) } else { magnitude_q as i64 };
        let remainder: i64 = if dividend < 0 { -(magnitude_r as i64) } else { magnitude_r as i64 };
        assert(quotient == trunc_quotient(dividend as int, divisor as int));
        assert(-0x8000_0000 <= quotient < 0x8000_0000);
        self.write_gpr(rd0, word_of_i32(quotient as i32));
        self.write_gpr(rd1, word_of_i32(remainder as i32));
        self.creg.update_sr_flags(false, quotient == 0, quotient < 0, false, false);
    }

    fn execute_divu(&mut self, rd0: u8, rd1: u8, ra: u8, rb: u8)
        requires
            old(self).wf(),
            rd0 < 16,
            rd1 < 16,
            ra < 16,
            rb < 16,
        ensures
            final(self).wf(),
            final(self)@ == divu_result(old(self)@, rd0, rd1, reg(old(self)@, ra), reg(old(self)@, rb)),
    {
        let dividend = self.read_gpr(ra);
        let divisor = self.read_gpr(rb);
        if divisor == 0 {
            self.creg.update_sr_flags(true, false, false, false, false);
            return;
        }
        let quotient = dividend / divisor;
        let remainder = dividend % divisor;
        self.write_gpr(rd0, quotient);
        self.write_gpr(rd1, remainder);
        self.creg.update_sr_flags(false, quotient == 0, false, false, false);
    }

    ///////////////////////////////////////////////////////////////////////////
    // Load and store
    fn load_store_bus_error(&mut self, error: SystemBusError, address: u32)
        requires
            old(self).wf(),
        ensures
            final(self).wf(),
            final(self)@ == access_fault(old(self)@, error, address),
    {
        match error {
            SystemBusError::MisalignedAccess { .. } => {
                self.creg.raise_exception(ExceptionCause::MisalignedDataAccess, address);
            },
            _ => {
                self.creg.raise_exception(ExceptionCause::BusError, address);
            },
        }
    }

    fn execute_load8(&mut self, rd: u8, base: u8, offset: i32, signed: bool)
        requires
            old(self).wf(),
            rd < 16,
            base < 16,
        ensures
            final(self).wf(),
            final(self)@ == load8(old(self)@, rd, base, offset, signed),
    {
        let address = add_signed_wrapping(self.read_gpr(base), offset);
        match self.bus.read8(address) {
            Ok(data) => {
                let value = if !signed || data < 0x80 { data as u32 } else { data as u32 + 0xFFFF_FF00 };
                self.write_gpr(rd, value);
            },
            Err(error) => self.load_store_bus_error(error, address),
        }
    }

    fn execute_load16(&mut self, rd: u8, base: u8, offset: i32, signed: bool)
        requires
            old(self).wf(),
            rd < 16,
            base < 16,
        ensures
            final(self).wf(),
            final(self)@ == load16(old(self)@, rd, base, offset, signed),
    {
        let address = add_signed_wrapping(self.read_gpr(base), offset);
        match self.bus.read16(address) {
            Ok(data) => {
                let value = if !signed || data < 0x8000 { data as u32 } else { data as u32 + 0xFFFF_0000 };
                self.write_gpr(rd, value);
            },
            Err(error) => self.load_store_bus_error(error, address),
        }
    }

    fn execute_load32(&mut self, rd: u8, base: u8, offset: i32)
        requires
            old(self).wf(),
            rd < 16,
            base < 16,
        ensures
            final(self).wf(),
            final(self)@ == load32(old(self)@, rd, base, offset),
    {
        let address = add_signed_wrapping(self.read_gpr(base), offset);
        match self.bus.read32(address) {
            Ok(data) => self.write_gpr(rd, data),
            Err(error) => self.load_store_bus_error(error, address),
        }
    }

    fn execute_store8(&mut self, rs: u8, base: u8, offset: i32)
        requires
            old(self).wf(),
            rs < 16,
            base < 16,
        ensures
            final(self).wf(),
            final(self)@ == store8(old(self)@, rs, base, offset),
    {
        let address = add_signed_wrapping(self.read_gpr(base), offset);
        let value = self.read_gpr(rs) as u8;
        match self.bus.write8(address, value) {
            Ok(_) => (),
            Err(error) => self.load_store_bus_error(error, address),
        }
    }

    fn execute_store16(&mut self, rs: u8, base: u8, offset: i32)
        requires
            old(self).wf(),
            rs < 16,
            base < 16,
        ensures
            final(self).wf(),
            final(self)@ == store16(old(self)@, rs, base, offset),
    {
        let address = add_signed_wrapping(self.read_gpr(base), offset);
        let value = self.read_gpr(rs) as u16;
        match self.bus.write16(address, value) {
            Ok(_) => (),
            Err(error) => self.load_store_bus_error(error, address),
        }
    }

    fn execute_store32(&mut self, rs: u8, base: u8, offset: i32)
        requires
            old(self).wf(),
            rs < 16,
            base < 16,
        ensures
            final(self).wf(),
            final(self)@ == store32(old(self)@, rs, base, offset),
    {
        let address = add_signed_wrapping(self.read_gpr(base), offset);
        let value = self.read_gpr(rs);
        match self.bus.write32(address, value) {
            Ok(_) => (),
            Err(error) => self.load_store_bus_error(error, address),
        }
    }

    ///////////////////////////////////////////////////////////////////////////
    // Jumps and calls
    fn execute_jmp(&mut self, offset: i32, condition: bool)
        requires
            old(self).wf(),
        ensures
            final(self).wf(),
            final(self)@ == jumped(old(self)@, offset, condition),
    {
        if condition {
            let pc = self.creg.read_register(Creg::PC);
            self.creg.write_register(Creg::PC, add_signed_wrapping(pc, offset));
        }
    }

    fn execute_call(&mut self, offset: i32)
        requires
            old(self).wf(),
        ensures
            final(self).wf(),
            final(self)@ == jumped(with_reg(old(self)@, 15, old(self)@.creg.pc), offset, true),
    {
        // The PC was advanced between fetch and execute, so it already holds
        // the return address.
        let pc = self.creg.read_register(Creg::PC);
        self.write_gpr(15, pc);
        self.execute_jmp(offset, true);
    }

    fn execute_jr(&mut self, target: u8)
        requires
            old(self).wf(),
            target < 16,
        ensures
            final(self).wf(),
            final(self)@ == with_pc(old(self)@, reg(old(self)@, target)),
    {
        let destination = self.read_gpr(target);
        self.creg.write_register(Creg::PC, destination);
    }

    fn execute_jalr(&mut self, rd: u8, target: u8)
        requires
            old(self).wf(),
            rd < 16,
            target < 16,
        ensures
            final(self).wf(),
            final(self)@ == ({
                let v1 = with_reg(old(self)@, rd, old(self)@.creg.pc);
                with_pc(v1, reg(v1, target))
            }),
    {
        let pc = self.creg.read_register(Creg::PC);
        self.write_gpr(rd, pc);
        let destination = self.read_gpr(target);
        self.creg.write_register(Creg::PC, destination);
    }
}

impl Lifecycle for Cpu {
    open spec fn valid(&self) -> bool {
        self.wf()
    }

    fn init(&mut self)
        ensures
            final(self)@ == (CpuView { gpr: zero_registers(), creg: creg_reset(old(self)@.creg), bus: bus_reset(old(self)@.bus), halted: false }),
    {
        self.reset_internal();
    }

    fn reset(&mut self)
        ensures
            final(self)@ == (CpuView { gpr: zero_registers(), creg: creg_reset(old(self)@.creg), bus: bus_reset(old(self)@.bus), halted: false }),
    {
        self.reset_internal();
    }

    /// One clock: an instruction step, then interrupt entry.
    fn tick(&mut self)
        ensures
            final(self)@ == ticked(old(self)@),
    {
        self.tick_with_bus();
        self.check_interrupts();
    }

    fn halt(&mut self)
        ensures
            final(self)@ == (CpuView { halted: true, ..old(self)@ }),
    {
        self.state = CpuState::Halted;
    }
}

} // verus!
