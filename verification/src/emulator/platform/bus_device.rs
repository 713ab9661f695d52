use vstd::prelude::*;

use crate::emulator::lifecycle::Lifecycle;

verus! {

/// Byte-addressed access to a memory-mapped device.
///
/// The byte accessors `read8` and `write8` are declared here together with
/// the device's size and interrupt line, so one trait gives everything the
/// bus needs of a device; no separate memory-mapping trait stands beside it.
pub trait BusDevice: Lifecycle {
    /// How many bytes of address space the device spans.
    fn size(&self) -> u32;

    /// Reads the byte at `offset`; `None` where the device has no readable byte.
    fn read8(&mut self, offset: u32) -> Option<u8>;

    /// Writes the byte at `offset`; `None` where the device has no writable byte.
    fn write8(&mut self, offset: u32, value: u8) -> Option<()>;

    /// Whether the device requests attention.
    fn interrupt_asserted(&self) -> bool {
        false
    }
}

} // verus!
