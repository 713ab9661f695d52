use vstd::prelude::*;

use crate::emulator::lifecycle::Lifecycle;

use super::bus_device::BusDevice;

verus! {

/// The byte a clock reads at `offset`: the low cycle word at offsets 0..4 and
/// the high cycle word at offsets 4..8, each most significant byte first.
pub open spec fn clock_byte(cycles: u64, offset: u32) -> Option<u8> {
    if offset == 0 {
        Some((cycles >> 24u64) as u8)
    } else if offset == 1 {
        Some((cycles >> 16u64) as u8)
    } else if offset == 2 {
        Some((cycles >> 8u64) as u8)
    } else if offset == 3 {
        Some(cycles as u8)
    } else if offset == 4 {
        Some((cycles >> 56u64) as u8)
    } else if offset == 5 {
        Some((cycles >> 48u64) as u8)
    } else if offset == 6 {
        Some((cycles >> 40u64) as u8)
    } else if offset == 7 {
        Some((cycles >> 32u64) as u8)
    } else {
        None
    }
}

/// A free-running 64-bit cycle counter, read-only on the bus.
#[derive(Debug, Clone, Copy, PartialEq, Eq, Structural)]
pub struct Clock {
    cycles: u64,
}

impl View for Clock {
    type V = u64;

    closed spec fn view(&self) -> u64 {
        self.cycles
    }
}

impl Clock {
    pub fn new() -> (c: Self)
        ensures
            c@ == 0,
    {
        Self { cycles: 0 }
    }

    /// A clock that has counted `cycles` cycles.
    pub fn with_cycles(cycles: u64) -> (c: Self)
        ensures
            c@ == cycles,
    {
        Self { cycles }
    }

    pub fn cycles(&self) -> (r: u64)
        ensures
            r == self@,
    {
        self.cycles
    }
}

impl Lifecycle for Clock {
    fn init(&mut self)
        ensures
            final(self)@ == 0,
    {
        self.reset();
    }

    fn reset(&mut self)
        ensures
            final(self)@ == 0,
    {
        self.cycles = 0;
    }

    /// Counts one cycle, wrapping to zero after the largest count.
    fn tick(&mut self)
        ensures
            final(self)@ == (if old(self)@ == u64::MAX { 0 } else { old(self)@ + 1 }),
    {
        self.cycles = self.cycles.wrapping_add(1);
    }
}

impl Default for Clock {
    fn default() -> (c: Self)
        ensures
            c@ == 0,
    {
        Self::new()
    }
}

impl BusDevice for Clock {
    fn size(&self) -> (r: u32)
        ensures
            r == 8,
    {
        8
    }

    fn read8(&mut self, offset: u32) -> (r: Option<u8>)
        ensures
            final(self)@ == old(self)@,
            r == clock_byte(old(self)@, offset),
    {
        let cycles = self.cycles();
        if offset == 0 {
            Some((cycles >> 24u64) as u8)
        } else if offset == 1 {
            Some((cycles >> 16u64) as u8)
        } else if offset == 2 {
            Some((cycles >> 8u64) as u8)
        } else if offset == 3 {
            Some(cycles as u8)
        } else if offset == 4 {
            Some((cycles >> 56u64) as u8)
        } else if offset == 5 {
            Some((cycles >> 48u64) as u8)
        } else if offset == 6 {
            Some((cycles >> 40u64) as u8)
        } else if offset == 7 {
            Some((cycles >> 32u64) as u8)
        } else {
            None
        }
    }

    /// The clock cannot be written.
    fn write8(&mut self, offset: u32, value: u8) -> (r: Option<()>)
        ensures
            final(self)@ == old(self)@,
            r is None,
    {
        None
    }
}

} // verus!
