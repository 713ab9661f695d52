//! System bus and platform address map.
//!
//! The bus translates CPU-visible physical addresses into RAM and memory-mapped
//! device accesses. Multi-byte accesses are big-endian and alignment-checked here;
//! the CPU maps resulting bus errors into architectural exceptions.
use vstd::prelude::*;

use crate::emulator::lifecycle::Lifecycle;
use crate::word::{add_wrapping, wrap32};

use super::bus_device::BusDevice;
use super::clock::Clock;
use super::device::{dv_interrupt, dv_read8, dv_reset, dv_size, dv_tick, dv_wf, dv_write8, Device, DeviceView};
use super::error::SystemBusError;
use super::mapped_device::{lemma_device_shape, mv_contains, mv_wf, mv_with, MappedDevice, MappedView};
use super::ram::Ram;
use super::serial::{Serial, SerialView, VecSerialSink, VecSerialSource};
use super::timer::Timer;

verus! {

pub const IRQ_LINES: usize = 16;

/// The handle of a mapped device: its position in the mapping order.
#[derive(Debug, Clone, Copy, PartialEq, Eq, Structural)]
pub struct DeviceId(usize);

impl View for DeviceId {
    type V = usize;

    closed spec fn view(&self) -> usize {
        self.0
    }
}

impl DeviceId {
    pub fn index(&self) -> (r: usize)
        ensures
            r == self@,
    {
        self.0
    }
}

/// The interrupt that the first asserting IRQ line requests.
#[derive(Debug, Clone, Copy, PartialEq, Eq, Structural)]
pub enum PendingInterrupt {
    Timer,
    External { source: u32 },
}

/// The mapped devices, in mapping order, and the device registered on each IRQ line.
pub ghost struct SystemBusView {
    pub devices: Seq<MappedView>,
    pub irq: Seq<Option<usize>>,
}

pub open spec fn windows_disjoint(a: MappedView, b: MappedView) -> bool {
    !(a.base < b.end && b.base < a.end)
}

/// Devices are valid, non-empty and pairwise disjoint; every IRQ line names a mapped device.
pub open spec fn bus_wf(v: SystemBusView) -> bool {
    &&& v.irq.len() == IRQ_LINES
    &&& forall|i: int| 0 <= i < v.devices.len() ==> mv_wf(#[trigger] v.devices[i]) && dv_size(v.devices[i].dev) > 0
    &&& forall|i: int, j: int|
        0 <= i < j < v.devices.len() ==> windows_disjoint(#[trigger] v.devices[i], #[trigger] v.devices[j])
    &&& forall|l: int| 0 <= l < IRQ_LINES ==> (#[trigger] v.irq[l] matches Some(id) ==> id < v.devices.len())
}

pub open spec fn misaligned(addr: u32, alignment: u32) -> bool {
    addr & ((alignment - 1) as u32) != 0
}

/// A byte read offered to the devices from position `i` on: the first device
/// whose window holds the address and that has a byte there answers.
pub open spec fn read8_from(devs: Seq<MappedView>, addr: u32, i: int) -> (Seq<MappedView>, Result<u8, SystemBusError>)
    decreases devs.len() - i,
{
    if i < 0 || i >= devs.len() {
        (devs, Err(SystemBusError::AddressUnmapped { addr }))
    } else if mv_contains(devs[i], addr) && dv_read8(devs[i].dev, (addr - devs[i].base) as u32).1 is Some {
        let (d, r) = dv_read8(devs[i].dev, (addr - devs[i].base) as u32);
        (devs.update(i, mv_with(devs[i], d)), Ok(r->0))
    } else {
        read8_from(devs, addr, i + 1)
    }
}

/// A byte write offered to the devices from position `i` on.
pub open spec fn write8_from(devs: Seq<MappedView>, addr: u32, value: u8, i: int) -> (Seq<MappedView>, Result<(), SystemBusError>)
    decreases devs.len() - i,
{
    if i < 0 || i >= devs.len() {
        (devs, Err(SystemBusError::AddressUnmapped { addr }))
    } else if mv_contains(devs[i], addr) && dv_write8(devs[i].dev, (addr - devs[i].base) as u32, value).1 is Some {
        let (d, r) = dv_write8(devs[i].dev, (addr - devs[i].base) as u32, value);
        (devs.update(i, mv_with(devs[i], d)), Ok(()))
    } else {
        write8_from(devs, addr, value, i + 1)
    }
}

pub open spec fn bus_read8(v: SystemBusView, addr: u32) -> (SystemBusView, Result<u8, SystemBusError>) {
    let (d, r) = read8_from(v.devices, addr, 0);
    (SystemBusView { devices: d, ..v }, r)
}

pub open spec fn bus_write8(v: SystemBusView, addr: u32, value: u8) -> (SystemBusView, Result<(), SystemBusError>) {
    let (d, r) = write8_from(v.devices, addr, value, 0);
    (SystemBusView { devices: d, ..v }, r)
}

/// A big-endian halfword read: two byte reads, the lower address first.
pub open spec fn bus_read16(v: SystemBusView, addr: u32) -> (SystemBusView, Result<u16, SystemBusError>) {
    if misaligned(addr, 2) {
        (v, Err(SystemBusError::MisalignedAccess { addr, alignment: 2 }))
    } else {
        let (v1, r0) = bus_read8(v, addr);
        match r0 {
            Err(e) => (v1, Err(e)),
            Ok(b0) => {
                let (v2, r1) = bus_read8(v1, wrap32(addr + 1));
                match r1 {
                    Err(e) => (v2, Err(e)),
                    Ok(b1) => (v2, Ok((((b0 as u16) << 8u16) | (b1 as u16)) as u16)),
                }
            },
        }
    }
}

pub open spec fn be_word(b0: u8, b1: u8, b2: u8, b3: u8) -> u32 {
    ((b0 as u32) << 24u32) | ((b1 as u32) << 16u32) | ((b2 as u32) << 8u32) | (b3 as u32)
}

/// A big-endian word read: four byte reads, the lowest address first.
pub open spec fn bus_read32(v: SystemBusView, addr: u32) -> (SystemBusView, Result<u32, SystemBusError>) {
    if misaligned(addr, 4) {
        (v, Err(SystemBusError::MisalignedAccess { addr, alignment: 4 }))
    } else {
        let (v1, r0) = bus_read8(v, addr);
        match r0 {
            Err(e) => (v1, Err(e)),
            Ok(b0) => read32_from1(v1, addr, b0),
        }
    }
}

pub open spec fn read32_from1(v: SystemBusView, addr: u32, b0: u8) -> (SystemBusView, Result<u32, SystemBusError>) {
    let (v2, r1) = bus_read8(v, wrap32(addr + 1));
    match r1 {
        Err(e) => (v2, Err(e)),
        Ok(b1) => read32_from2(v2, addr, b0, b1),
    }
}

pub open spec fn read32_from2(v: SystemBusView, addr: u32, b0: u8, b1: u8) -> (SystemBusView, Result<u32, SystemBusError>) {
    let (v3, r2) = bus_read8(v, wrap32(addr + 2));
    match r2 {
        Err(e) => (v3, Err(e)),
        Ok(b2) => {
            let (v4, r3) = bus_read8(v3, wrap32(addr + 3));
            match r3 {
                Err(e) => (v4, Err(e)),
                Ok(b3) => (v4, Ok(be_word(b0, b1, b2, b3))),
            }
        },
    }
}

/// A big-endian halfword write: the high byte to the lower address first.
pub open spec fn bus_write16(v: SystemBusView, addr: u32, value: u16) -> (SystemBusView, Result<(), SystemBusError>) {
    if misaligned(addr, 2) {
        (v, Err(SystemBusError::MisalignedAccess { addr, alignment: 2 }))
    } else {
        let (v1, r0) = bus_write8(v, addr, (value >> 8u16) as u8);
        match r0 {
            Err(e) => (v1, Err(e)),
            Ok(_) => bus_write8(v1, wrap32(addr + 1), value as u8),
        }
    }
}

/// A big-endian word write: the most significant byte to the lowest address first.
pub open spec fn bus_write32(v: SystemBusView, addr: u32, value: u32) -> (SystemBusView, Result<(), SystemBusError>) {
    if misaligned(addr, 4) {
        (v, Err(SystemBusError::MisalignedAccess { addr, alignment: 4 }))
    } else {
        let (v1, r0) = bus_write8(v, addr, (value >> 24u32) as u8);
        match r0 {
            Err(e) => (v1, Err(e)),
            Ok(_) => write32_from1(v1, addr, value),
        }
    }
}

pub open spec fn write32_from1(v: SystemBusView, addr: u32, value: u32) -> (SystemBusView, Result<(), SystemBusError>) {
    let (v2, r1) = bus_write8(v, wrap32(addr + 1), (value >> 16u32) as u8);
    match r1 {
        Err(e) => (v2, Err(e)),
        Ok(_) => {
            let (v3, r2) = bus_write8(v2, wrap32(addr + 2), (value >> 8u32) as u8);
            match r2 {
                Err(e) => (v3, Err(e)),
                Ok(_) => bus_write8(v3, wrap32(addr + 3), value as u8),
            }
        },
    }
}

pub open spec fn bus_map_devices(v: SystemBusView, f: spec_fn(DeviceView) -> DeviceView) -> SystemBusView {
    SystemBusView { devices: v.devices.map_values(|m: MappedView| mv_with(m, f(m.dev))), ..v }
}

pub open spec fn bus_reset(v: SystemBusView) -> SystemBusView {
    bus_map_devices(v, |d: DeviceView| dv_reset(d))
}

pub open spec fn bus_tick(v: SystemBusView) -> SystemBusView {
    bus_map_devices(v, |d: DeviceView| dv_tick(d))
}

pub open spec fn interrupt_kind(m: MappedView) -> PendingInterrupt {
    if m.dev is Timer {
        PendingInterrupt::Timer
    } else {
        PendingInterrupt::External { source: m.base }
    }
}

/// The interrupt of the first IRQ line from `line` on whose device asserts one.
pub open spec fn pending_from(v: SystemBusView, line: int) -> Option<PendingInterrupt>
    decreases IRQ_LINES - line,
{
    if line < 0 || line >= IRQ_LINES || line >= v.irq.len() {
        None
    } else {
        match v.irq[line] {
            Some(id) => if id < v.devices.len() && dv_interrupt(v.devices[id as int].dev) {
                Some(interrupt_kind(v.devices[id as int]))
            } else {
                pending_from(v, line + 1)
            },
            None => pending_from(v, line + 1),
        }
    }
}

/// The base address of the device on the first IRQ line from `line` on whose
/// device asserts its interrupt.
pub open spec fn pending_base(v: SystemBusView, line: int) -> Option<u32>
    decreases IRQ_LINES - line,
{
    if line < 0 || line >= IRQ_LINES || line >= v.irq.len() {
        None
    } else {
        match v.irq[line] {
            Some(id) => if id < v.devices.len() && dv_interrupt(v.devices[id as int].dev) {
                Some(v.devices[id as int].base)
            } else {
                pending_base(v, line + 1)
            },
            None => pending_base(v, line + 1),
        }
    }
}

/// What a serial port has transmitted and not yet handed out; nothing for other devices.
pub open spec fn output_of(d: DeviceView) -> Seq<u8> {
    match d {
        DeviceView::Serial(s) => s.output,
        _ => Seq::empty(),
    }
}

/// A device after handing out its transmitted bytes.
pub open spec fn drained(d: DeviceView) -> DeviceView {
    match d {
        DeviceView::Serial(s) => DeviceView::Serial(SerialView { output: Seq::empty(), ..s }),
        _ => d,
    }
}

/// What the devices have transmitted, in mapping order.
pub open spec fn outputs_of(devices: Seq<MappedView>) -> Seq<u8>
    decreases devices.len(),
{
    if devices.len() == 0 {
        Seq::empty()
    } else {
        outputs_of(devices.drop_last()) + output_of(devices.last().dev)
    }
}

/// The devices after each hands out its transmitted bytes.
pub open spec fn all_drained(devices: Seq<MappedView>) -> Seq<MappedView> {
    devices.map_values(|m: MappedView| mv_with(m, drained(m.dev)))
}

/// Whether a device of `size` bytes can be placed at `base`.
pub open spec fn can_map_spec(v: SystemBusView, base: u32, size: u32) -> bool {
    &&& size > 0
    &&& base + size <= 0x1_0000_0000
    &&& forall|i: int| 0 <= i < v.devices.len() ==> !(base < #[trigger] v.devices[i].end && v.devices[i].base < base + size)
}

/// The memory and device interconnect of a machine.
pub struct SystemBus {
    devices: Vec<MappedDevice>,
    irq_table: Vec<Option<DeviceId>>,
}

impl View for SystemBus {
    type V = SystemBusView;

    closed spec fn view(&self) -> SystemBusView {
        SystemBusView {
            devices: self.devices@.map_values(|m: MappedDevice| m@),
            irq: self.irq_table@.map_values(|d: Option<DeviceId>| match d {
                Some(id) => Some(id.0),
                None => None,
            }),
        }
    }
}

impl SystemBus {
    pub open spec fn wf(&self) -> bool {
        bus_wf(self@)
    }

    /// A bus with no devices and no IRQ lines in use.
    pub fn new() -> (b: Self)
        ensures
            b.wf(),
            b@.devices == Seq::<MappedView>::empty(),
            b@.irq == Seq::new(IRQ_LINES as nat, |l: int| None::<usize>),
    {
        let mut irq_table: Vec<Option<DeviceId>> = Vec::new();
        while irq_table.len() < IRQ_LINES
            invariant
                irq_table@.len() <= IRQ_LINES,
                forall|l: int| 0 <= l < irq_table@.len() ==> irq_table@[l] is None,
            decreases IRQ_LINES - irq_table@.len(),
        {
            irq_table.push(None);
        }
        let b = Self { devices: Vec::new(), irq_table };
        assert(b@.devices =~= Seq::<MappedView>::empty());
        assert(b@.irq =~= Seq::new(IRQ_LINES as nat, |l: int| None::<usize>));
        b
    }

    /// Whether `device` fits at `base`: it is not empty, ends within the
    /// address space and shares no address with a mapped device.
    pub fn can_map(&self, base: u32, device: &Device) -> (r: bool)
        ensures
            r == (dv_wf(device@) && can_map_spec(self@, base, dv_size(device@))),
    {
        if !device.size_fits() {
            return false;
        }
        let size = device.size();
        if size == 0 || base as u64 + size as u64 > 0x1_0000_0000u64 {
            return false;
        }
        let mut i: usize = 0;
        while i < self.devices.len()
            invariant
                dv_wf(device@),
                size == dv_size(device@),
                size > 0,
                base + size <= 0x1_0000_0000,
                i <= self@.devices.len(),
                self@.devices.len() == self.devices@.len(),
                forall|k: int| 0 <= k < i ==> !(base < #[trigger] self@.devices[k].end && self@.devices[k].base < base + size),
            decreases self.devices@.len() - i,
        {
            assert(self@.devices[i as int] == self.devices@[i as int]@);
            if self.devices[i].overlaps(base, size) {
                assert(base < self@.devices[i as int].end && self@.devices[i as int].base < base + size);
                return false;
            }
            i += 1;
        }
        true
    }

    /// Maps `device` at `base` and returns its handle.
    pub fn map_device(&mut self, base: u32, device: Device) -> (id: DeviceId)
        requires
            old(self).wf(),
            dv_wf(device@),
            can_map_spec(old(self)@, base, dv_size(device@)),
        ensures
            final(self).wf(),
            id@ == old(self)@.devices.len(),
            final(self)@.irq == old(self)@.irq,
            final(self)@.devices == old(self)@.devices.push(
                MappedView { base, end: base + dv_size(device@), dev: device@ },
            ),
    {
        let mapped = MappedDevice::new(base, device);
        let id = DeviceId(self.devices.len());
        self.devices.push(mapped);
        assert(self@.devices =~= old(self)@.devices.push(mapped@));
        assert(self@.irq =~= old(self)@.irq);
        id
    }

    /// Routes IRQ line `irq_line` to a mapped device.
    pub fn register_irq(&mut self, irq_line: usize, device_id: DeviceId)
        requires
            old(self).wf(),
            irq_line < IRQ_LINES,
            device_id@ < old(self)@.devices.len(),
        ensures
            final(self).wf(),
            final(self)@.devices == old(self)@.devices,
            final(self)@.irq == old(self)@.irq.update(irq_line as int, Some(device_id@)),
    {
        self.irq_table.set(irq_line, Some(device_id));
        assert(self@.irq =~= old(self)@.irq.update(irq_line as int, Some(device_id.0)));
        assert(self@.devices =~= old(self)@.devices);
    }

    fn check_alignment(addr: u32, alignment: u32) -> (r: Result<(), SystemBusError>)
        requires
            alignment > 0,
        ensures
            r == (if misaligned(addr, alignment) {
                Err(SystemBusError::MisalignedAccess { addr, alignment })
            } else {
                Ok(())
            }),
    {
        if addr & (alignment - 1) != 0 {
            return Err(SystemBusError::MisalignedAccess { addr, alignment });
        }
        Ok(())
    }

    pub fn read8(&mut self, addr: u32) -> (r: Result<u8, SystemBusError>)
        requires
            old(self).wf(),
        ensures
            final(self).wf(),
            (final(self)@, r) == bus_read8(old(self)@, addr),
    {
        let mut i: usize = 0;
        while i < self.devices.len()
            invariant
                self@ == old(self)@,
                self.wf(),
                i <= self.devices@.len(),
                read8_from(old(self)@.devices, addr, i as int) == read8_from(old(self)@.devices, addr, 0),
            decreases self.devices@.len() - i,
        {
            if self.devices[i].contains(addr) {
                let offset = self.devices[i].offset(addr);
                let ghost before = self@;
                let answer = self.devices[i].read8(offset);
                proof {
                    lemma_device_shape(before.devices[i as int].dev, offset, 0);
                }
                if let Some(value) = answer {
                    assert(self@.devices =~= before.devices.update(
                        i as int,
                        mv_with(before.devices[i as int], dv_read8(before.devices[i as int].dev, offset).0),
                    ));
                    assert(self@.irq =~= before.irq);
                    return Ok(value);
                }
                assert(self@.devices =~= before.devices);
                assert(self@.irq =~= before.irq);
            }
            i += 1;
        }
        Err(SystemBusError::AddressUnmapped { addr })
    }

    pub fn write8(&mut self, addr: u32, value: u8) -> (r: Result<(), SystemBusError>)
        requires
            old(self).wf(),
        ensures
            final(self).wf(),
            (final(self)@, r) == bus_write8(old(self)@, addr, value),
    {
        let mut i: usize = 0;
        while i < self.devices.len()
            invariant
                self@ == old(self)@,
                self.wf(),
                i <= self.devices@.len(),
                write8_from(old(self)@.devices, addr, value, i as int) == write8_from(old(self)@.devices, addr, value, 0),
            decreases self.devices@.len() - i,
        {
            if self.devices[i].contains(addr) {
                let offset = self.devices[i].offset(addr);
                let ghost before = self@;
                let answer = self.devices[i].write8(offset, value);
                proof {
                    lemma_device_shape(before.devices[i as int].dev, offset, value);
                }
                if answer.is_some() {
                    assert(self@.devices =~= before.devices.update(
                        i as int,
                        mv_with(before.devices[i as int], dv_write8(before.devices[i as int].dev, offset, value).0),
                    ));
                    assert(self@.irq =~= before.irq);
                    return Ok(());
                }
                assert(self@.devices =~= before.devices);
                assert(self@.irq =~= before.irq);
            }
            i += 1;
        }
        Err(SystemBusError::AddressUnmapped { addr })
    }

    pub fn read16(&mut self, addr: u32) -> (r: Result<u16, SystemBusError>)
        requires
            old(self).wf(),
        ensures
            final(self).wf(),
            (final(self)@, r) == bus_read16(old(self)@, addr),
    {
        Self::check_alignment(addr, 2)?;
        let b0 = self.read8(addr)? as u16;
        let b1 = self.read8(add_wrapping(addr, 1))? as u16;
        Ok((b0 << 8u16) | b1)
    }

    pub fn write16(&mut self, addr: u32, value: u16) -> (r: Result<(), SystemBusError>)
        requires
            old(self).wf(),
        ensures
            final(self).wf(),
            (final(self)@, r) == bus_write16(old(self)@, addr, value),
    {
        Self::check_alignment(addr, 2)?;
        self.write8(addr, (value >> 8u16) as u8)?;
        self.write8(add_wrapping(addr, 1), value as u8)?;
        Ok(())
    }

    pub fn read32(&mut self, addr: u32) -> (r: Result<u32, SystemBusError>)
        requires
            old(self).wf(),
        ensures
            final(self).wf(),
            (final(self)@, r) == bus_read32(old(self)@, addr),
    {
        Self::check_alignment(addr, 4)?;
        let b0 = self.read8(addr)?;
        let b1 = self.read8(add_wrapping(addr, 1))?;
        let b2 = self.read8(add_wrapping(addr, 2))?;
        let b3 = self.read8(add_wrapping(addr, 3))?;
        Ok(((b0 as u32) << 24u32) | ((b1 as u32) << 16u32) | ((b2 as u32) << 8u32) | (b3 as u32))
    }

    pub fn write32(&mut self, addr: u32, value: u32) -> (r: Result<(), SystemBusError>)
        requires
            old(self).wf(),
        ensures
            final(self).wf(),
            (final(self)@, r) == bus_write32(old(self)@, addr, value),
    {
        Self::check_alignment(addr, 4)?;
        self.write8(addr, (value >> 24u32) as u8)?;
        self.write8(add_wrapping(addr, 1), (value >> 16u32) as u8)?;
        self.write8(add_wrapping(addr, 2), (value >> 8u32) as u8)?;
        self.write8(add_wrapping(addr, 3), value as u8)?;
        Ok(())
    }

    /// The base address of the device on the lowest IRQ line that asserts
    /// its interrupt.
    pub fn pending_interrupt(&self) -> (r: Option<u32>)
        requires
            self.wf(),
        ensures
            r == pending_base(self@, 0),
    {
        let mut line: usize = 0;
        while line < IRQ_LINES
            invariant
                self.wf(),
                line <= IRQ_LINES,
                pending_base(self@, line as int) == pending_base(self@, 0),
            decreases IRQ_LINES - line,
        {
            match self.irq_table[line] {
                Some(id) => {
                    assert(self@.irq[line as int] == Some(id.0));
                    let device = &self.devices[id.0];
                    if device.interrupt_asserted() {
                        return Some(device.base());
                    }
                },
                None => {
                    assert(self@.irq[line as int] is None);
                },
            }
            line += 1;
        }
        None
    }

    /// The interrupt of the lowest IRQ line whose device asserts one, as the
    /// processor takes it: a timer interrupt for a timer, otherwise an
    /// external interrupt that names the device's base address.
    pub fn pending_interrupt_kind(&self) -> (r: Option<PendingInterrupt>)
        requires
            self.wf(),
        ensures
            r == pending_from(self@, 0),
    {
        let mut line: usize = 0;
        while line < IRQ_LINES
            invariant
                self.wf(),
                line <= IRQ_LINES,
                pending_from(self@, line as int) == pending_from(self@, 0),
            decreases IRQ_LINES - line,
        {
            match self.irq_table[line] {
                Some(id) => {
                    assert(self@.irq[line as int] == Some(id.0));
                    let device = &self.devices[id.0];
                    if device.interrupt_asserted() {
                        if device.device().is_timer() {
                            return Some(PendingInterrupt::Timer);
                        } else {
                            return Some(PendingInterrupt::External { source: device.base() });
                        }
                    }
                },
                None => {
                    assert(self@.irq[line as int] is None);
                },
            }
            line += 1;
        }
        None
    }

    /// Hands out what every serial port has transmitted, in mapping order, and
    /// forgets it.
    pub fn take_serial_output(&mut self) -> (r: Vec<u8>)
        requires
            old(self).wf(),
        ensures
            final(self).wf(),
            r@ == outputs_of(old(self)@.devices),
            final(self)@ == (SystemBusView { devices: all_drained(old(self)@.devices), ..old(self)@ }),
    {
        let ghost start = self@;
        let mut out: Vec<u8> = Vec::new();
        let mut i: usize = 0;
        assert(start.devices.take(0) =~= Seq::<MappedView>::empty());
        while i < self.devices.len()
            invariant
                self.wf(),
                self@.irq == start.irq,
                self@.devices.len() == start.devices.len(),
                i <= self@.devices.len(),
                out@ == outputs_of(start.devices.take(i as int)),
                forall|k: int| 0 <= k < i ==> #[trigger] self@.devices[k] == mv_with(start.devices[k], drained(start.devices[k].dev)),
                forall|k: int| i <= k < self@.devices.len() ==> #[trigger] self@.devices[k] == start.devices[k],
            decreases self@.devices.len() - i,
        {
            let ghost before = self@;
            let mut bytes = self.devices[i].take_serial_output();
            out.append(&mut bytes);
            proof {
                assert(self@.devices =~= before.devices.update(i as int, self@.devices[i as int]));
                assert(self@.irq =~= before.irq);
                match before.devices[i as int].dev {
                    DeviceView::Serial(s) => {},
                    _ => {},
                }
                assert(start.devices.take(i + 1).drop_last() =~= start.devices.take(i as int));
            }
            i += 1;
        }
        assert(start.devices.take(i as int) =~= start.devices);
        assert(self@.devices =~= all_drained(start.devices));
        out
    }

    /// How many devices are mapped.
    pub fn device_count(&self) -> (r: usize)
        ensures
            r == self@.devices.len(),
    {
        self.devices.len()
    }

    /// Hands out what the serial port `id` has transmitted and forgets it; a
    /// device other than a serial port hands out nothing.
    pub fn take_device_output(&mut self, id: DeviceId) -> (r: Vec<u8>)
        requires
            old(self).wf(),
            id@ < old(self)@.devices.len(),
        ensures
            final(self).wf(),
            r@ == output_of(old(self)@.devices[id@ as int].dev),
            final(self)@ == (SystemBusView {
                devices: old(self)@.devices.update(id@ as int, mv_with(old(self)@.devices[id@ as int], drained(old(self)@.devices[id@ as int].dev))),
                ..old(self)@
            }),
    {
        let ghost before = self@;
        let bytes = self.devices[id.0].take_serial_output();
        proof {
            match before.devices[id@ as int].dev {
                DeviceView::Serial(s) => {},
                _ => {},
            }
        }
        assert(self@.devices =~= before.devices.update(id@ as int, mv_with(before.devices[id@ as int], drained(before.devices[id@ as int].dev))));
        assert(self@.irq =~= before.irq);
        bytes
    }

    /// A bus with the standard platform: `ram_size` bytes of RAM at address 0,
    /// the cycle clock at 0xFFFF_0000, a serial port (no input, output kept) at
    /// 0xFFFF_0100 and the timer at 0xFFFF_0200 on IRQ line 0.
    pub fn standard(ram_size: u32) -> (b: Self)
        requires
            0 < ram_size <= 0xFFFF_0000,
        ensures
            b.wf(),
            b@.devices.len() == 4,
            b@.devices[0] == (MappedView { base: 0, end: ram_size as int, dev: DeviceView::Ram(Seq::new(ram_size as nat, |i: int| 0u8)) }),
            b@.devices[1] == (MappedView { base: 0xFFFF_0000, end: 0xFFFF_0008, dev: DeviceView::Clock(0) }),
            b@.devices[2] == (MappedView {
                base: 0xFFFF_0100,
                end: 0xFFFF_010C,
                dev: DeviceView::Serial(SerialView { control: 0, output: Seq::empty(), input: Seq::empty() }),
            }),
            b@.devices[3] == (MappedView { base: 0xFFFF_0200, end: 0xFFFF_020C, dev: DeviceView::Timer(super::timer::timer_reset_view()) }),
            b@.irq == Seq::new(IRQ_LINES as nat, |l: int| None::<usize>).update(0, Some(3usize)),
    {
        let mut bus = Self::new();
        bus.map_device(0, Device::Ram(Ram::new(ram_size)));
        bus.map_device(0xFFFF_0000, Device::Clock(Clock::new()));
        bus.map_device(0xFFFF_0100, Device::Serial(Serial::new(VecSerialSink::new(), VecSerialSource::default())));
        let timer = bus.map_device(0xFFFF_0200, Device::Timer(Timer::new()));
        bus.register_irq(0, timer);
        bus
    }
}

impl Default for SystemBus {
    fn default() -> (b: Self)
        ensures
            b.wf(),
            b@.devices == Seq::<MappedView>::empty(),
    {
        Self::new()
    }
}

impl Lifecycle for SystemBus {
    open spec fn valid(&self) -> bool {
        self.wf()
    }

    fn reset(&mut self)
        ensures
            final(self)@ == bus_reset(old(self)@),
            bus_wf(old(self)@) ==> bus_wf(final(self)@),
    {
        let mut i: usize = 0;
        while i < self.devices.len()
            invariant
                self@.irq == old(self)@.irq,
                self@.devices.len() == old(self)@.devices.len(),
                i <= self@.devices.len(),
                forall|k: int| 0 <= k < i ==> #[trigger] self@.devices[k] == mv_with(old(self)@.devices[k], dv_reset(old(self)@.devices[k].dev)),
                forall|k: int| i <= k < self@.devices.len() ==> #[trigger] self@.devices[k] == old(self)@.devices[k],
            decreases self@.devices.len() - i,
        {
            let ghost before = self@;
            self.devices[i].reset();
            assert(self@.devices =~= before.devices.update(i as int, mv_with(before.devices[i as int], dv_reset(before.devices[i as int].dev))));
            assert(self@.irq =~= before.irq);
            i += 1;
        }
        assert(self@.devices =~= bus_reset(old(self)@).devices);
        proof {
            if bus_wf(old(self)@) {
                assert forall|k: int| 0 <= k < self@.devices.len() implies mv_wf(#[trigger] self@.devices[k]) && dv_size(self@.devices[k].dev) > 0 by {
                    lemma_device_shape(old(self)@.devices[k].dev, 0, 0);
                }
            }
        }
    }

    fn init(&mut self)
        ensures
            final(self)@ == bus_reset(old(self)@),
            bus_wf(old(self)@) ==> bus_wf(final(self)@),
    {
        let mut i: usize = 0;
        while i < self.devices.len()
            invariant
                self@.irq == old(self)@.irq,
                self@.devices.len() == old(self)@.devices.len(),
                i <= self@.devices.len(),
                forall|k: int| 0 <= k < i ==> #[trigger] self@.devices[k] == mv_with(old(self)@.devices[k], dv_reset(old(self)@.devices[k].dev)),
                forall|k: int| i <= k < self@.devices.len() ==> #[trigger] self@.devices[k] == old(self)@.devices[k],
            decreases self@.devices.len() - i,
        {
            let ghost before = self@;
            self.devices[i].init();
            assert(self@.devices =~= before.devices.update(i as int, mv_with(before.devices[i as int], dv_reset(before.devices[i as int].dev))));
            assert(self@.irq =~= before.irq);
            i += 1;
        }
        assert(self@.devices =~= bus_reset(old(self)@).devices);
        proof {
            if bus_wf(old(self)@) {
                assert forall|k: int| 0 <= k < self@.devices.len() implies mv_wf(#[trigger] self@.devices[k]) && dv_size(self@.devices[k].dev) > 0 by {
                    lemma_device_shape(old(self)@.devices[k].dev, 0, 0);
                }
            }
        }
    }

    fn tick(&mut self)
        ensures
            final(self)@ == bus_tick(old(self)@),
            bus_wf(old(self)@) ==> bus_wf(final(self)@),
    {
        let mut i: usize = 0;
        while i < self.devices.len()
            invariant
                self@.irq == old(self)@.irq,
                self@.devices.len() == old(self)@.devices.len(),
                i <= self@.devices.len(),
                forall|k: int| 0 <= k < i ==> #[trigger] self@.devices[k] == mv_with(old(self)@.devices[k], dv_tick(old(self)@.devices[k].dev)),
                forall|k: int| i <= k < self@.devices.len() ==> #[trigger] self@.devices[k] == old(self)@.devices[k],
            decreases self@.devices.len() - i,
        {
            let ghost before = self@;
            self.devices[i].tick();
            assert(self@.devices =~= before.devices.update(i as int, mv_with(before.devices[i as int], dv_tick(before.devices[i as int].dev))));
            assert(self@.irq =~= before.irq);
            i += 1;
        }
        assert(self@.devices =~= bus_tick(old(self)@).devices);
        proof {
            if bus_wf(old(self)@) {
                assert forall|k: int| 0 <= k < self@.devices.len() implies mv_wf(#[trigger] self@.devices[k]) && dv_size(self@.devices[k].dev) > 0 by {
                    lemma_device_shape(old(self)@.devices[k].dev, 0, 0);
                }
            }
        }
    }

    fn halt(&mut self)
        ensures
            final(self)@ == old(self)@,
    {
        let mut i: usize = 0;
        while i < self.devices.len()
            invariant
                self@ == old(self)@,
                i <= self@.devices.len(),
            decreases self@.devices.len() - i,
        {
            let ghost before = self@;
            self.devices[i].halt();
            assert(self@.devices =~= before.devices);
            i += 1;
        }
    }
}

} // verus!
