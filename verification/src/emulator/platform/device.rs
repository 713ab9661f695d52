use vstd::prelude::*;

use crate::emulator::lifecycle::Lifecycle;

use super::bus_device::BusDevice;
use super::clock::{clock_byte, Clock};
use super::ram::Ram;
use super::serial::{serial_read8, serial_write8, Serial, SerialView};
use super::timer::{timer_asserted, timer_read8, timer_reset_view, timer_ticked, timer_write8, Timer, TimerView};

verus! {

/// The state of a device.
pub ghost enum DeviceView {
    Ram(Seq<u8>),
    Clock(u64),
    Timer(TimerView),
    Serial(SerialView),
}

pub open spec fn dv_wf(d: DeviceView) -> bool {
    match d {
        DeviceView::Ram(bytes) => bytes.len() <= u32::MAX,
        _ => true,
    }
}

/// Bytes of address space the device spans.
pub open spec fn dv_size(d: DeviceView) -> u32 {
    match d {
        DeviceView::Ram(bytes) => bytes.len() as u32,
        DeviceView::Clock(_) => 8,
        DeviceView::Timer(_) => 12,
        DeviceView::Serial(_) => 12,
    }
}

pub open spec fn dv_read8(d: DeviceView, offset: u32) -> (DeviceView, Option<u8>) {
    match d {
        DeviceView::Ram(bytes) => (d, if offset < bytes.len() { Some(bytes[offset as int]) } else { None }),
        DeviceView::Clock(c) => (d, clock_byte(c, offset)),
        DeviceView::Timer(t) => (d, timer_read8(t, offset)),
        DeviceView::Serial(s) => {
            let (s2, r) = serial_read8(s, offset);
            (DeviceView::Serial(s2), r)
        },
    }
}

pub open spec fn dv_write8(d: DeviceView, offset: u32, value: u8) -> (DeviceView, Option<()>) {
    match d {
        DeviceView::Ram(bytes) => if offset < bytes.len() {
            (DeviceView::Ram(bytes.update(offset as int, value)), Some(()))
        } else {
            (d, None)
        },
        DeviceView::Clock(_) => (d, None),
        DeviceView::Timer(t) => {
            let (t2, r) = timer_write8(t, offset, value);
            (DeviceView::Timer(t2), r)
        },
        DeviceView::Serial(s) => {
            let (s2, r) = serial_write8(s, offset, value);
            (DeviceView::Serial(s2), r)
        },
    }
}

/// Reset (and power-on) state: memory keeps its contents, the clock and timer
/// restart, the serial port is disabled.
pub open spec fn dv_reset(d: DeviceView) -> DeviceView {
    match d {
        DeviceView::Ram(_) => d,
        DeviceView::Clock(_) => DeviceView::Clock(0),
        DeviceView::Timer(_) => DeviceView::Timer(timer_reset_view()),
        DeviceView::Serial(s) => DeviceView::Serial(SerialView { control: 0, ..s }),
    }
}

/// One clock tick: the clock and the timer count.
pub open spec fn dv_tick(d: DeviceView) -> DeviceView {
    match d {
        DeviceView::Clock(c) => DeviceView::Clock(if c == u64::MAX { 0 } else { (c + 1) as u64 }),
        DeviceView::Timer(t) => DeviceView::Timer(timer_ticked(t)),
        _ => d,
    }
}

pub open spec fn dv_interrupt(d: DeviceView) -> bool {
    match d {
        DeviceView::Timer(t) => timer_asserted(t),
        _ => false,
    }
}

/// A device that the system bus can map.
#[derive(Debug)]
pub enum Device {
    Ram(Ram),
    Clock(Clock),
    Timer(Timer),
    Serial(Serial),
}

impl View for Device {
    type V = DeviceView;

    open spec fn view(&self) -> DeviceView {
        match self {
            Device::Ram(r) => DeviceView::Ram(r@),
            Device::Clock(c) => DeviceView::Clock(c@),
            Device::Timer(t) => DeviceView::Timer(t@),
            Device::Serial(s) => DeviceView::Serial(s@),
        }
    }
}

impl Device {
    /// Whether the device fits the address space (only a RAM can be too large).
    pub fn size_fits(&self) -> (r: bool)
        ensures
            r == dv_wf(self@),
    {
        match self {
            Device::Ram(r) => r.size_fits(),
            _ => true,
        }
    }


    pub fn is_timer(&self) -> (r: bool)
        ensures
            r == (self@ is Timer),
    {
        match self {
            Device::Timer(_) => true,
            _ => false,
        }
    }

    /// Hands out what a serial port has transmitted; other devices have nothing.
    pub fn take_serial_output(&mut self) -> (r: Vec<u8>)
        ensures
            match old(self)@ {
                DeviceView::Serial(s) => r@ == s.output && final(self)@ == DeviceView::Serial(
                    SerialView { output: Seq::empty(), ..s },
                ),
                _ => r@ == Seq::<u8>::empty() && final(self)@ == old(self)@,
            },
    {
        match self {
            Device::Serial(s) => s.take_output(),
            _ => Vec::new(),
        }
    }
}

impl Lifecycle for Device {
    fn reset(&mut self)
        ensures
            final(self)@ == dv_reset(old(self)@),
    {
        match self {
            Device::Ram(d) => d.reset(),
            Device::Clock(d) => d.reset(),
            Device::Timer(d) => d.reset(),
            Device::Serial(d) => d.reset(),
        }
    }

    fn init(&mut self)
        ensures
            final(self)@ == dv_reset(old(self)@),
    {
        match self {
            Device::Ram(d) => d.init(),
            Device::Clock(d) => d.init(),
            Device::Timer(d) => d.init(),
            Device::Serial(d) => d.init(),
        }
    }

    fn tick(&mut self)
        ensures
            final(self)@ == dv_tick(old(self)@),
    {
        match self {
            Device::Ram(d) => d.tick(),
            Device::Clock(d) => d.tick(),
            Device::Timer(d) => d.tick(),
            Device::Serial(d) => d.tick(),
        }
    }

    fn halt(&mut self)
        ensures
            final(self)@ == old(self)@,
    {
        match self {
            Device::Ram(d) => d.halt(),
            Device::Clock(d) => d.halt(),
            Device::Timer(d) => d.halt(),
            Device::Serial(d) => d.halt(),
        }
    }
}

impl BusDevice for Device {
    fn size(&self) -> (r: u32)
        ensures
            dv_wf(self@) ==> r == dv_size(self@),
    {
        match self {
            Device::Ram(d) => d.size(),
            Device::Clock(d) => d.size(),
            Device::Timer(d) => d.size(),
            Device::Serial(d) => d.size(),
        }
    }

    fn read8(&mut self, offset: u32) -> (r: Option<u8>)
        ensures
            (final(self)@, r) == dv_read8(old(self)@, offset),
    {
        match self {
            Device::Ram(d) => d.read8(offset),
            Device::Clock(d) => d.read8(offset),
            Device::Timer(d) => d.read8(offset),
            Device::Serial(d) => d.read8(offset),
        }
    }

    fn write8(&mut self, offset: u32, value: u8) -> (r: Option<()>)
        ensures
            (final(self)@, r) == dv_write8(old(self)@, offset, value),
    {
        match self {
            Device::Ram(d) => d.write8(offset, value),
            Device::Clock(d) => d.write8(offset, value),
            Device::Timer(d) => d.write8(offset, value),
            Device::Serial(d) => d.write8(offset, value),
        }
    }

    fn interrupt_asserted(&self) -> (r: bool)
        ensures
            r == dv_interrupt(self@),
    {
        match self {
            Device::Timer(t) => t.interrupt_asserted(),
            _ => false,
        }
    }
}

} // verus!
