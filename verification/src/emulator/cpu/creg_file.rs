use vstd::prelude::*;

use crate::emulator::lifecycle::Lifecycle;
use crate::word::{add_wrapping, wrap32};

use super::exception_cause::{spec_cause_code, ExceptionCause};
use super::pc::ProgramCounter;
use super::status::{pack_flags, reset_flags, unpack_flags, SrFlags, StatusRegister};

pub use crate::isa::Creg;

verus! {

/// The contents of the control registers.
pub ghost struct CregView {
    pub pc: u32,
    pub sr: SrFlags,
    pub epc: u32,
    pub esr: SrFlags,
    pub ecause: u32,
    pub edata: u32,
    pub evbase: u32,
}

/// The value `mrs` reads from a control register.
pub open spec fn creg_value(v: CregView, reg: Creg) -> u32 {
    match reg {
        Creg::PC => v.pc,
        Creg::SR => pack_flags(v.sr),
        Creg::EPC => v.epc,
        Creg::ESR => pack_flags(v.esr),
        Creg::ECause => v.ecause,
        Creg::EData => v.edata,
        Creg::EvBase => v.evbase,
    }
}

/// The control registers after `msr` writes `value` to `reg`.
pub open spec fn creg_written(v: CregView, reg: Creg, value: u32) -> CregView {
    match reg {
        Creg::PC => CregView { pc: value, ..v },
        Creg::SR => CregView { sr: unpack_flags(value), ..v },
        Creg::EPC => CregView { epc: value, ..v },
        Creg::ESR => CregView { esr: unpack_flags(value), ..v },
        Creg::ECause => CregView { ecause: value, ..v },
        Creg::EData => CregView { edata: value, ..v },
        Creg::EvBase => CregView { evbase: value, ..v },
    }
}

/// Exception entry: the status register is saved and interrupts are disabled,
/// the continuation PC is saved, and the PC moves to the cause's vector slot.
pub open spec fn creg_raised(v: CregView, cause: ExceptionCause, data: u32) -> CregView {
    CregView {
        pc: wrap32(v.evbase + spec_cause_code(cause) * 16),
        sr: SrFlags { ie: false, ..v.sr },
        epc: v.pc,
        esr: v.sr,
        ecause: spec_cause_code(cause),
        edata: data,
        evbase: v.evbase,
    }
}

/// Return from exception: PC and status register come back from EPC and ESR.
pub open spec fn creg_returned(v: CregView) -> CregView {
    CregView { pc: v.epc, sr: v.esr, ..v }
}

/// The status register after an instruction sets its five result flags.
pub open spec fn flags_updated(sr: SrFlags, ae: bool, z: bool, n: bool, c: bool, v: bool) -> SrFlags {
    SrFlags { n, z, c, v, e: ae, ie: sr.ie }
}

/// The control registers after reset: the PC moves to the reset vector of the
/// current vector base, which then returns to zero.
pub open spec fn creg_reset(v: CregView) -> CregView {
    CregView { pc: v.evbase, sr: reset_flags(), epc: 0, ecause: 0, evbase: 0, ..v }
}

/// The control register file.
#[derive(Debug)]
pub struct CregFile {
    pc: ProgramCounter,
    sr: StatusRegister,
    epc: u32,
    esr: StatusRegister,
    ecause: u32,
    edata: u32,
    evbase: u32,
}

impl View for CregFile {
    type V = CregView;

    closed spec fn view(&self) -> CregView {
        CregView {
            pc: self.pc@,
            sr: self.sr@,
            epc: self.epc,
            esr: self.esr@,
            ecause: self.ecause,
            edata: self.edata,
            evbase: self.evbase,
        }
    }
}

impl CregFile {
    pub fn new() -> (c: Self)
        ensures
            c@ == (CregView { pc: 0, sr: reset_flags(), epc: 0, esr: reset_flags(), ecause: 0, edata: 0, evbase: 0 }),
    {
        Self {
            pc: ProgramCounter::new(),
            sr: StatusRegister::new(),
            epc: 0,
            esr: StatusRegister::new(),
            ecause: ExceptionCause::Reset.code(),
            edata: 0,
            evbase: 0,
        }
    }

    pub fn sr(&self) -> (r: &StatusRegister)
        ensures
            r@ == self@.sr,
    {
        &self.sr
    }

    pub fn sr_mut(&mut self) -> (r: &mut StatusRegister)
        ensures
            r@ == old(self)@.sr,
            final(self)@ == (CregView { sr: final(r)@, ..old(self)@ }),
    {
        &mut self.sr
    }

    /// Sets the arithmetic error, zero, negative, carry and overflow flags.
    pub fn update_sr_flags(&mut self, arithmetic_error: bool, zero: bool, negative: bool, carry: bool, overflow: bool)
        ensures
            final(self)@ == (CregView {
                sr: flags_updated(old(self)@.sr, arithmetic_error, zero, negative, carry, overflow),
                ..old(self)@
            }),
    {
        self.sr.set_arithmetic_error(arithmetic_error);
        self.sr.set_zero(zero);
        self.sr.set_negative(negative);
        self.sr.set_carry(carry);
        self.sr.set_overflow(overflow);
    }

    /// Moves the PC to the next instruction word.
    pub fn advance_pc_word(&mut self)
        ensures
            final(self)@ == (CregView { pc: wrap32(old(self)@.pc + 4), ..old(self)@ }),
    {
        self.pc.advance_word();
    }

    /// Enables interrupts.
    pub fn ei(&mut self)
        ensures
            final(self)@ == (CregView { sr: SrFlags { ie: true, ..old(self)@.sr }, ..old(self)@ }),
    {
        self.sr.set_interrupt_enable(true);
    }

    /// Disables interrupts.
    pub fn di(&mut self)
        ensures
            final(self)@ == (CregView { sr: SrFlags { ie: false, ..old(self)@.sr }, ..old(self)@ }),
    {
        self.sr.set_interrupt_enable(false);
    }

    /// Enters the exception vector of `cause`, recording `data` in EDATA.
    ///
    /// EPC receives the continuation PC: the fetch advances the PC before the
    /// instruction executes, so IRET resumes after the instruction.
    pub fn raise_exception(&mut self, cause: ExceptionCause, data: u32)
        ensures
            final(self)@ == creg_raised(old(self)@, cause, data),
    {
        let saved = self.sr.get();
        self.esr.set(saved);
        proof {
            super::status::lemma_unpack_pack(old(self)@.sr);
        }
        self.sr.set_interrupt_enable(false);
        self.epc = self.pc.get();
        self.ecause = cause.code();
        self.edata = data;
        let target = add_wrapping(self.evbase, cause.vector_offset());
        self.pc.set(target);
    }

    /// Returns from an exception.
    pub fn iret(&mut self)
        ensures
            final(self)@ == creg_returned(old(self)@),
    {
        self.pc.set(self.epc);
        let saved = self.esr.get();
        self.sr.set(saved);
        proof {
            super::status::lemma_unpack_pack(old(self)@.esr);
        }
    }

    pub fn read_register(&self, reg: Creg) -> (r: u32)
        ensures
            r == creg_value(self@, reg),
    {
        match reg {
            Creg::PC => self.pc.get(),
            Creg::SR => self.sr.get(),
            Creg::EPC => self.epc,
            Creg::ESR => self.esr.get(),
            Creg::ECause => self.ecause,
            Creg::EData => self.edata,
            Creg::EvBase => self.evbase,
        }
    }

    pub fn write_register(&mut self, reg: Creg, value: u32)
        ensures
            final(self)@ == creg_written(old(self)@, reg, value),
    {
        match reg {
            Creg::PC => {
                self.pc.set(value);
            },
            Creg::SR => {
                self.sr.set(value);
            },
            Creg::EPC => {
                self.epc = value;
            },
            Creg::ESR => {
                self.esr.set(value);
            },
            Creg::ECause => {
                self.ecause = value;
            },
            Creg::EData => {
                self.edata = value;
            },
            Creg::EvBase => {
                self.evbase = value;
            },
        }
    }
}

impl Lifecycle for CregFile {
    fn init(&mut self)
        ensures
            final(self)@ == creg_reset(old(self)@),
    {
        let target = add_wrapping(self.evbase, ExceptionCause::Reset.vector_offset());
        self.pc.set(target);
        self.sr.reset();
        self.epc = 0;
        self.ecause = ExceptionCause::Reset.code();
        self.evbase = 0;
    }

    fn reset(&mut self)
        ensures
            final(self)@ == creg_reset(old(self)@),
    {
        self.init();
    }
}

/// An exception entry followed by a return resumes at the continuation PC
/// with the status register as it was, interrupt enable included.
pub proof fn lemma_raise_then_return(v: CregView, cause: ExceptionCause, data: u32)
    ensures
        creg_returned(creg_raised(v, cause, data)).pc == v.pc,
        creg_returned(creg_raised(v, cause, data)).sr == v.sr,
{
}

} // verus!
