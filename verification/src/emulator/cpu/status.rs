use vstd::prelude::*;

use crate::emulator::lifecycle::Lifecycle;

verus! {

/// The six architectural bits of the status register, as booleans.
pub ghost struct SrFlags {
    pub n: bool,
    pub z: bool,
    pub c: bool,
    pub v: bool,
    pub e: bool,
    pub ie: bool,
}

/// The register value that holds a set of flags; every reserved bit is zero.
pub open spec fn pack_flags(f: SrFlags) -> u32 {
    ((if f.n { 1u32 } else { 0u32 }) + (if f.z { 2u32 } else { 0u32 }) + (if f.c { 4u32 } else { 0u32 })
        + (if f.v { 8u32 } else { 0u32 }) + (if f.e { 16u32 } else { 0u32 }) + (if f.ie { 32u32 } else { 0u32 })) as u32
}

/// The flags that a register value sets; reserved bits are ignored.
pub open spec fn unpack_flags(value: u32) -> SrFlags {
    SrFlags {
        n: value & 1u32 != 0,
        z: value & 2u32 != 0,
        c: value & 4u32 != 0,
        v: value & 8u32 != 0,
        e: value & 16u32 != 0,
        ie: value & 32u32 != 0,
    }
}

/// All flags clear.
pub open spec fn reset_flags() -> SrFlags {
    SrFlags { n: false, z: false, c: false, v: false, e: false, ie: false }
}

proof fn lemma_bits_of_value(value: u32)
    by (bit_vector)
    ensures
        (value & 0x3Fu32) == (if value & 1u32 != 0 { 1u32 } else { 0u32 }) + (if value & 2u32 != 0 { 2u32 } else { 0u32 })
            + (if value & 4u32 != 0 { 4u32 } else { 0u32 }) + (if value & 8u32 != 0 { 8u32 } else { 0u32 })
            + (if value & 16u32 != 0 { 16u32 } else { 0u32 }) + (if value & 32u32 != 0 { 32u32 } else { 0u32 }),
{
}

proof fn lemma_bits_of_sum(n: bool, z: bool, c: bool, v: bool, e: bool, ie: bool, value: u32)
    by (bit_vector)
    requires
        value == (if n { 1u32 } else { 0u32 }) + (if z { 2u32 } else { 0u32 }) + (if c { 4u32 } else { 0u32 })
            + (if v { 8u32 } else { 0u32 }) + (if e { 16u32 } else { 0u32 }) + (if ie { 32u32 } else { 0u32 }),
    ensures
        (value & 1u32 != 0) == n,
        (value & 2u32 != 0) == z,
        (value & 4u32 != 0) == c,
        (value & 8u32 != 0) == v,
        (value & 16u32 != 0) == e,
        (value & 32u32 != 0) == ie,
{
}

/// Reading back a written status value gives the value with its reserved bits cleared.
pub proof fn lemma_pack_unpack(value: u32)
    ensures
        pack_flags(unpack_flags(value)) == value & 0x3Fu32,
{
    lemma_bits_of_value(value);
}

/// Writing the value of a set of flags sets exactly those flags.
pub proof fn lemma_unpack_pack(f: SrFlags)
    ensures
        unpack_flags(pack_flags(f)) == f,
        pack_flags(f) < 64,
{
    lemma_bits_of_sum(f.n, f.z, f.c, f.v, f.e, f.ie, pack_flags(f));
}

/// The status register: condition flags, the arithmetic error flag and the
/// interrupt enable bit. Reserved bits always read as zero.
#[derive(Debug, Clone, Copy, PartialEq, Eq, Structural)]
pub struct StatusRegister {
    n: bool,
    z: bool,
    c: bool,
    v: bool,
    e: bool,
    ie: bool,
}

impl View for StatusRegister {
    type V = SrFlags;

    closed spec fn view(&self) -> SrFlags {
        SrFlags { n: self.n, z: self.z, c: self.c, v: self.v, e: self.e, ie: self.ie }
    }
}

impl StatusRegister {
    pub const RESET_VALUE: u32 = 0x0000_0000;

    pub const FLAG_N: u32 = 1;
    pub const FLAG_Z: u32 = 2;
    pub const FLAG_C: u32 = 4;
    pub const FLAG_V: u32 = 8;
    pub const FLAG_E: u32 = 16;
    pub const FLAG_IE: u32 = 32;

    pub const VALID_MASK: u32 = 0x3F;

    pub fn new() -> (sr: Self)
        ensures
            sr@ == reset_flags(),
    {
        Self { n: false, z: false, c: false, v: false, e: false, ie: false }
    }

    /// The register value.
    pub fn get(&self) -> (r: u32)
        ensures
            r == pack_flags(self@),
    {
        (if self.n { 1u32 } else { 0u32 }) + (if self.z { 2u32 } else { 0u32 }) + (if self.c { 4u32 } else { 0u32 })
            + (if self.v { 8u32 } else { 0u32 }) + (if self.e { 16u32 } else { 0u32 }) + (if self.ie { 32u32 } else { 0u32 })
    }

    /// Writes the register; reserved bits of `value` are dropped.
    pub fn set(&mut self, value: u32)
        ensures
            final(self)@ == unpack_flags(value),
    {
        self.n = value & Self::FLAG_N != 0;
        self.z = value & Self::FLAG_Z != 0;
        self.c = value & Self::FLAG_C != 0;
        self.v = value & Self::FLAG_V != 0;
        self.e = value & Self::FLAG_E != 0;
        self.ie = value & Self::FLAG_IE != 0;
    }

    pub fn negative(&self) -> (r: bool)
        ensures
            r == self@.n,
    {
        self.n
    }

    pub fn zero(&self) -> (r: bool)
        ensures
            r == self@.z,
    {
        self.z
    }

    pub fn carry(&self) -> (r: bool)
        ensures
            r == self@.c,
    {
        self.c
    }

    pub fn overflow(&self) -> (r: bool)
        ensures
            r == self@.v,
    {
        self.v
    }

    pub fn arithmetic_error(&self) -> (r: bool)
        ensures
            r == self@.e,
    {
        self.e
    }

    pub fn interrupt_enable(&self) -> (r: bool)
        ensures
            r == self@.ie,
    {
        self.ie
    }

    pub fn set_negative(&mut self, value: bool)
        ensures
            final(self)@ == (SrFlags { n: value, ..old(self)@ }),
    {
        self.n = value;
    }

    pub fn set_zero(&mut self, value: bool)
        ensures
            final(self)@ == (SrFlags { z: value, ..old(self)@ }),
    {
        self.z = value;
    }

    pub fn set_carry(&mut self, value: bool)
        ensures
            final(self)@ == (SrFlags { c: value, ..old(self)@ }),
    {
        self.c = value;
    }

    pub fn set_overflow(&mut self, value: bool)
        ensures
            final(self)@ == (SrFlags { v: value, ..old(self)@ }),
    {
        self.v = value;
    }

    pub fn set_arithmetic_error(&mut self, value: bool)
        ensures
            final(self)@ == (SrFlags { e: value, ..old(self)@ }),
    {
        self.e = value;
    }

    pub fn set_interrupt_enable(&mut self, value: bool)
        ensures
            final(self)@ == (SrFlags { ie: value, ..old(self)@ }),
    {
        self.ie = value;
    }

    /// Clears every flag except the interrupt enable bit.
    pub fn clear_condition_flags(&mut self)
        ensures
            final(self)@ == (SrFlags { ie: old(self)@.ie, ..reset_flags() }),
    {
        self.n = false;
        self.z = false;
        self.c = false;
        self.v = false;
        self.e = false;
    }
}

impl Lifecycle for StatusRegister {
    fn init(&mut self)
        ensures
            final(self)@ == reset_flags(),
    {
        self.reset();
    }

    fn reset(&mut self)
        ensures
            final(self)@ == reset_flags(),
    {
        self.n = false;
        self.z = false;
        self.c = false;
        self.v = false;
        self.e = false;
        self.ie = false;
    }
}

impl Default for StatusRegister {
    fn default() -> (sr: Self)
        ensures
            sr@ == reset_flags(),
    {
        Self::new()
    }
}

} // verus!
