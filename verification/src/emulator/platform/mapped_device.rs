use vstd::prelude::*;

use crate::emulator::lifecycle::Lifecycle;

use super::bus_device::BusDevice;
use super::device::{dv_read8, dv_reset, dv_size, dv_tick, dv_wf, dv_write8, dv_interrupt, Device, DeviceView};

verus! {

/// A device placed at a base address.
pub ghost struct MappedView {
    pub base: u32,
    pub end: int,
    pub dev: DeviceView,
}

pub open spec fn mv_wf(m: MappedView) -> bool {
    &&& dv_wf(m.dev)
    &&& m.end == m.base + dv_size(m.dev)
    &&& m.end <= 0x1_0000_0000
}

pub open spec fn mv_contains(m: MappedView, addr: u32) -> bool {
    m.base <= addr && addr < m.end
}

pub open spec fn mv_with(m: MappedView, dev: DeviceView) -> MappedView {
    MappedView { dev, ..m }
}

/// Every device operation keeps the device's size and validity.
pub proof fn lemma_device_shape(d: DeviceView, offset: u32, value: u8)
    requires
        dv_wf(d),
    ensures
        dv_wf(dv_read8(d, offset).0) && dv_size(dv_read8(d, offset).0) == dv_size(d),
        dv_wf(dv_write8(d, offset, value).0) && dv_size(dv_write8(d, offset, value).0) == dv_size(d),
        dv_wf(dv_reset(d)) && dv_size(dv_reset(d)) == dv_size(d),
        dv_wf(dv_tick(d)) && dv_size(dv_tick(d)) == dv_size(d),
        dv_read8(d, offset).1 is None ==> dv_read8(d, offset).0 == d,
        dv_write8(d, offset, value).1 is None ==> dv_write8(d, offset, value).0 == d,
{
}

/// A device together with the window of the address space it answers in.
pub struct MappedDevice {
    base: u32,
    end: u64,
    device: Device,
}

impl View for MappedDevice {
    type V = MappedView;

    closed spec fn view(&self) -> MappedView {
        MappedView { base: self.base, end: self.end as int, dev: self.device@ }
    }
}

impl MappedDevice {
    /// Places `device` at `base`; the device must fit below 2^32.
    pub fn new(base: u32, device: Device) -> (m: Self)
        requires
            dv_wf(device@),
            base + dv_size(device@) <= 0x1_0000_0000,
        ensures
            mv_wf(m@),
            m@ == (MappedView { base, end: base + dv_size(device@), dev: device@ }),
    {
        let size = device.size();
        Self { base, end: base as u64 + size as u64, device }
    }

    pub fn contains(&self, address: u32) -> (r: bool)
        ensures
            r == mv_contains(self@, address),
    {
        self.base <= address && (address as u64) < self.end
    }

    /// The device offset of an address at or above the base.
    pub fn offset(&self, address: u32) -> (r: u32)
        requires
            self@.base <= address,
        ensures
            r == address - self@.base,
    {
        address - self.base
    }

    pub fn base(&self) -> (r: u32)
        ensures
            r == self@.base,
    {
        self.base
    }

    pub fn end_exclusive(&self) -> (r: u64)
        ensures
            r == self@.end,
    {
        self.end
    }

    /// Whether `[base, base + size)` shares an address with this device's window.
    pub fn overlaps(&self, base: u32, size: u32) -> (r: bool)
        ensures
            r == (base < self@.end && self@.base < base + size),
    {
        let new_start = base as u64;
        let new_end = new_start + size as u64;
        let existing_start = self.base as u64;
        let existing_end = self.end;
        new_start < existing_end && existing_start < new_end
    }

    pub fn device(&self) -> (r: &Device)
        ensures
            r@ == self@.dev,
    {
        &self.device
    }

    pub fn take_serial_output(&mut self) -> (r: Vec<u8>)
        ensures
            final(self)@.base == old(self)@.base,
            final(self)@.end == old(self)@.end,
            match old(self)@.dev {
                DeviceView::Serial(s) => r@ == s.output && final(self)@.dev == DeviceView::Serial(
                    super::serial::SerialView { output: Seq::empty(), ..s },
                ),
                _ => r@ == Seq::<u8>::empty() && final(self)@.dev == old(self)@.dev,
            },
    {
        self.device.take_serial_output()
    }
}

impl BusDevice for MappedDevice {
    fn size(&self) -> (r: u32)
        ensures
            dv_wf(self@.dev) ==> r == dv_size(self@.dev),
    {
        self.device.size()
    }

    fn read8(&mut self, offset: u32) -> (r: Option<u8>)
        ensures
            final(self)@ == mv_with(old(self)@, dv_read8(old(self)@.dev, offset).0),
            r == dv_read8(old(self)@.dev, offset).1,
    {
        self.device.read8(offset)
    }

    fn write8(&mut self, offset: u32, value: u8) -> (r: Option<()>)
        ensures
            final(self)@ == mv_with(old(self)@, dv_write8(old(self)@.dev, offset, value).0),
            r == dv_write8(old(self)@.dev, offset, value).1,
    {
        self.device.write8(offset, value)
    }

    fn interrupt_asserted(&self) -> (r: bool)
        ensures
            r == dv_interrupt(self@.dev),
    {
        self.device.interrupt_asserted()
    }
}

impl Lifecycle for MappedDevice {
    fn init(&mut self)
        ensures
            final(self)@ == mv_with(old(self)@, dv_reset(old(self)@.dev)),
    {
        self.device.init();
    }

    fn reset(&mut self)
        ensures
            final(self)@ == mv_with(old(self)@, dv_reset(old(self)@.dev)),
    {
        self.device.reset();
    }

    fn tick(&mut self)
        ensures
            final(self)@ == mv_with(old(self)@, dv_tick(old(self)@.dev)),
    {
        self.device.tick();
    }

    fn halt(&mut self)
        ensures
            final(self)@ == old(self)@,
    {
        self.device.halt();
    }
}

} // verus!
