//! A byte-addressed bus with big-endian, alignment-checked wide accesses built
//! from byte accesses.
use vstd::prelude::*;

use crate::word::add_wrapping;

verus! {

/// Why an access through a [`Bus`] failed.
#[derive(Debug, Clone, Copy, PartialEq, Eq, Structural)]
pub enum BusError {
    AddressOutOfRange { addr: u32 },
    UnsupportedAccess { addr: u32 },
    MisalignedAccess { addr: u32, alignment: u32 },
}

/// Whether `addr` is not a multiple of the power of two `alignment`.
pub open spec fn bus_misaligned(addr: u32, alignment: u32) -> bool {
    addr & ((alignment - 1) as u32) != 0
}

/// The big-endian halfword of two bytes.
pub open spec fn be_half(b0: u8, b1: u8) -> u16 {
    (b0 as u16 * 256 + b1 as u16) as u16
}

/// The big-endian word of four bytes.
pub open spec fn be_word32(b0: u8, b1: u8, b2: u8, b3: u8) -> u32 {
    (b0 as u32 * 0x100_0000 + b1 as u32 * 0x1_0000 + b2 as u32 * 0x100 + b3 as u32) as u32
}

/// The big-endian halfword of two bytes.
pub fn combine_half(b0: u8, b1: u8) -> (r: u16)
    ensures
        r == be_half(b0, b1),
{
    (b0 as u16) * 256 + (b1 as u16)
}

/// The big-endian word of four bytes.
pub fn combine_word(b0: u8, b1: u8, b2: u8, b3: u8) -> (r: u32)
    ensures
        r == be_word32(b0, b1, b2, b3),
{
    (b0 as u32) * 0x100_0000 + (b1 as u32) * 0x1_0000 + (b2 as u32) * 0x100 + (b3 as u32)
}

/// A memory bus. Implementors give the byte accesses; the halfword and word
/// accesses check alignment, then go through the byte accesses from the
/// lowest address up, most significant byte first, and stop at the first
/// failing byte.
pub trait Bus: Sized {
    /// `Ok` when `addr` is a multiple of the power of two `alignment`.
    fn check_alignment(addr: u32, alignment: u32) -> (r: Result<(), BusError>)
        requires
            alignment > 0,
        ensures
            r == (if bus_misaligned(addr, alignment) {
                Err(BusError::MisalignedAccess { addr, alignment })
            } else {
                Ok(())
            }),
    {
        if addr & (alignment - 1) != 0 {
            return Err(BusError::MisalignedAccess { addr, alignment });
        }
        Ok(())
    }

    fn read8(&mut self, addr: u32) -> Result<u8, BusError>;

    fn write8(&mut self, addr: u32, value: u8) -> Result<(), BusError>;

    fn read16(&mut self, addr: u32) -> (r: Result<u16, BusError>)
        ensures
            bus_misaligned(addr, 2) ==> r == Err::<u16, BusError>(BusError::MisalignedAccess { addr, alignment: 2 })
                && *final(self) == *old(self),
    {
        Self::check_alignment(addr, 2)?;
        let b0 = self.read8(addr)?;
        let b1 = self.read8(add_wrapping(addr, 1))?;
        Ok(combine_half(b0, b1))
    }

    fn write16(&mut self, addr: u32, value: u16) -> (r: Result<(), BusError>)
        ensures
            bus_misaligned(addr, 2) ==> r == Err::<(), BusError>(BusError::MisalignedAccess { addr, alignment: 2 })
                && *final(self) == *old(self),
    {
        Self::check_alignment(addr, 2)?;
        self.write8(addr, (value / 256) as u8)?;
        self.write8(add_wrapping(addr, 1), (value % 256) as u8)?;
        Ok(())
    }

    fn read32(&mut self, addr: u32) -> (r: Result<u32, BusError>)
        ensures
            bus_misaligned(addr, 4) ==> r == Err::<u32, BusError>(BusError::MisalignedAccess { addr, alignment: 4 })
                && *final(self) == *old(self),
    {
        Self::check_alignment(addr, 4)?;
        let b0 = self.read8(addr)?;
        let b1 = self.read8(add_wrapping(addr, 1))?;
        let b2 = self.read8(add_wrapping(addr, 2))?;
        let b3 = self.read8(add_wrapping(addr, 3))?;
        Ok(combine_word(b0, b1, b2, b3))
    }

    fn write32(&mut self, addr: u32, value: u32) -> (r: Result<(), BusError>)
        ensures
            bus_misaligned(addr, 4) ==> r == Err::<(), BusError>(BusError::MisalignedAccess { addr, alignment: 4 })
                && *final(self) == *old(self),
    {
        Self::check_alignment(addr, 4)?;
        self.write8(addr, (value / 0x100_0000) as u8)?;
        self.write8(add_wrapping(addr, 1), (value / 0x1_0000 % 256) as u8)?;
        self.write8(add_wrapping(addr, 2), (value / 0x100 % 256) as u8)?;
        self.write8(add_wrapping(addr, 3), (value % 256) as u8)?;
        Ok(())
    }
}

} // verus!
