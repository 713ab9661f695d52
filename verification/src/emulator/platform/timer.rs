use vstd::prelude::*;

use crate::emulator::lifecycle::Lifecycle;
use crate::word::{add_wrapping, wrap32};

use super::bus_device::BusDevice;

verus! {

pub const COUNTER_OFFSET: u32 = 0x00;
pub const CONTROL_OFFSET: u32 = 0x04;
pub const COMPARE_OFFSET: u32 = 0x08;

pub const CONTROL_ENABLE: u32 = 1;
pub const CONTROL_IRQ_ENABLE: u32 = 2;
pub const CONTROL_IRQ_PENDING: u32 = 4;
pub const CONTROL_AUTO_RELOAD: u32 = 8;
pub const CONTROL_PRESCALER_SHIFT: u32 = 4;
pub const CONTROL_PRESCALER_MASK: u32 = 0xF0;
pub const CONTROL_PERIOD_SHIFT: u32 = 8;
pub const CONTROL_PERIOD_MASK: u32 = 0xF00;
pub const CONTROL_WRITABLE_MASK: u32 = 0xFFF;

/// The registers of a timer.
pub ghost struct TimerView {
    pub counter: u32,
    pub prescale_counter: u32,
    pub control: u32,
    pub compare: u32,
}

pub open spec fn timer_reset_view() -> TimerView {
    TimerView { counter: 0, prescale_counter: 0, control: 0, compare: 0xFFFF_FFFF }
}

/// A timer counts when it is enabled and its compare value is not zero.
pub open spec fn timer_enabled(t: TimerView) -> bool {
    t.compare != 0 && t.control & CONTROL_ENABLE != 0
}

pub open spec fn timer_pending(t: TimerView) -> bool {
    t.control & CONTROL_IRQ_PENDING != 0
}

/// The timer requests an interrupt when one is pending and interrupts are enabled.
pub open spec fn timer_asserted(t: TimerView) -> bool {
    t.control & CONTROL_IRQ_ENABLE != 0 && timer_pending(t)
}

/// Control writes: every writable bit is taken from `value` except the pending
/// bit, which writing one clears and writing zero leaves as it was.
pub open spec fn timer_control_after_write(control: u32, value: u32) -> u32 {
    if value & CONTROL_IRQ_PENDING != 0 {
        value & 0xFFBu32
    } else {
        (value & 0xFFBu32) | (control & CONTROL_IRQ_PENDING)
    }
}

/// Ticks the prescaler divides by: two to the power of the prescaler field.
pub open spec fn timer_divider(control: u32) -> u32 {
    1u32 << ((control & CONTROL_PRESCALER_MASK) >> CONTROL_PRESCALER_SHIFT)
}

/// One clock tick: the prescaler counts; when it reaches the divider the counter
/// counts; when the counter reaches the compare value the interrupt becomes
/// pending and the timer reloads (auto-reload) or stops (one-shot).
pub open spec fn timer_ticked(t: TimerView) -> TimerView {
    if !timer_enabled(t) {
        t
    } else {
        let p = wrap32(t.prescale_counter + 1);
        if p < timer_divider(t.control) {
            TimerView { prescale_counter: p, ..t }
        } else {
            let counter = wrap32(t.counter + 1);
            if counter >= t.compare {
                let control = t.control | CONTROL_IRQ_PENDING;
                if control & CONTROL_AUTO_RELOAD != 0 {
                    TimerView { counter: 0, prescale_counter: 0, control, ..t }
                } else {
                    TimerView { counter, prescale_counter: 0, control: control & !CONTROL_ENABLE, ..t }
                }
            } else {
                TimerView { counter, prescale_counter: 0, ..t }
            }
        }
    }
}

/// Byte `lane` (0 most significant) of a big-endian register.
pub open spec fn reg_byte(value: u32, lane: u32) -> u8 {
    (value >> ((3 - lane) * 8) as u32) as u8
}

/// A register with byte `lane` (0 most significant) replaced.
pub open spec fn reg_with_byte(value: u32, lane: u32, byte: u8) -> u32 {
    (value & !(0xFFu32 << ((3 - lane) * 8) as u32)) | ((byte as u32) << ((3 - lane) * 8) as u32)
}

pub open spec fn timer_read8(t: TimerView, offset: u32) -> Option<u8> {
    if offset < 4 {
        Some(reg_byte(t.counter, offset))
    } else if 4 <= offset < 8 {
        Some(reg_byte(t.control, (offset - 4) as u32))
    } else if 8 <= offset < 12 {
        Some(reg_byte(t.compare, (offset - 8) as u32))
    } else {
        None
    }
}

/// A bus write: counter writes restart the prescaler and control writes follow
/// the control register's rules.
pub open spec fn timer_write8(t: TimerView, offset: u32, value: u8) -> (TimerView, Option<()>) {
    if offset < 4 {
        (TimerView { counter: reg_with_byte(t.counter, offset, value), prescale_counter: 0, ..t }, Some(()))
    } else if 4 <= offset < 8 {
        (
            TimerView {
                control: timer_control_after_write(t.control, reg_with_byte(t.control, (offset - 4) as u32, value)),
                ..t
            },
            Some(()),
        )
    } else if 8 <= offset < 12 {
        (TimerView { compare: reg_with_byte(t.compare, (offset - 8) as u32, value), ..t }, Some(()))
    } else {
        (t, None)
    }
}

proof fn lemma_select_bound(control: u32)
    by (bit_vector)
    ensures
        (control & 0xF0u32) >> 4u32 < 16,
{
}

/// A programmable interval timer with prescaler, compare value, one-shot or
/// auto-reload mode and an interrupt request.
#[derive(Debug, Clone)]
pub struct Timer {
    counter: u32,
    prescale_counter: u32,
    control: u32,
    compare: u32,
}

impl View for Timer {
    type V = TimerView;

    closed spec fn view(&self) -> TimerView {
        TimerView {
            counter: self.counter,
            prescale_counter: self.prescale_counter,
            control: self.control,
            compare: self.compare,
        }
    }
}

impl Timer {
    pub fn new() -> (t: Self)
        ensures
            t@ == timer_reset_view(),
    {
        Self { counter: 0, prescale_counter: 0, control: 0, compare: 0xFFFF_FFFF }
    }

    pub fn enabled(&self) -> (r: bool)
        ensures
            r == timer_enabled(self@),
    {
        self.compare != 0 && self.control & CONTROL_ENABLE != 0
    }

    pub fn interrupt_pending(&self) -> (r: bool)
        ensures
            r == timer_pending(self@),
    {
        self.control & CONTROL_IRQ_PENDING != 0
    }

    pub fn interrupt_asserted(&self) -> (r: bool)
        ensures
            r == timer_asserted(self@),
    {
        self.control & CONTROL_IRQ_ENABLE != 0 && self.interrupt_pending()
    }

    pub fn read_counter(&self) -> (r: u32)
        ensures
            r == self@.counter,
    {
        self.counter
    }

    /// Sets the counter and restarts the prescaler.
    pub fn write_counter(&mut self, value: u32)
        ensures
            final(self)@ == (TimerView { counter: value, prescale_counter: 0, ..old(self)@ }),
    {
        self.counter = value;
        self.prescale_counter = 0;
    }

    pub fn read_control(&self) -> (r: u32)
        ensures
            r == self@.control,
    {
        self.control
    }

    pub fn write_control(&mut self, value: u32)
        ensures
            final(self)@ == (TimerView { control: timer_control_after_write(old(self)@.control, value), ..old(self)@ }),
    {
        let clear_pending = value & CONTROL_IRQ_PENDING != 0;
        let preserved_pending = self.control & CONTROL_IRQ_PENDING;
        let writable_without_pending: u32 = 0xFFB;
        self.control = value & writable_without_pending;
        if !clear_pending {
            self.control = self.control | preserved_pending;
        }
    }

    pub fn read_compare(&self) -> (r: u32)
        ensures
            r == self@.compare,
    {
        self.compare
    }

    pub fn write_compare(&mut self, value: u32)
        ensures
            final(self)@ == (TimerView { compare: value, ..old(self)@ }),
    {
        self.compare = value;
    }

    pub fn prescaler_select(&self) -> (r: u32)
        ensures
            r == (self@.control & CONTROL_PRESCALER_MASK) >> CONTROL_PRESCALER_SHIFT,
            r < 16,
    {
        proof {
            lemma_select_bound(self.control);
        }
        (self.control & CONTROL_PRESCALER_MASK) >> CONTROL_PRESCALER_SHIFT
    }

    pub fn prescaler_divider(&self) -> (r: u32)
        ensures
            r == timer_divider(self@.control),
    {
        1u32 << self.prescaler_select()
    }
}

impl Lifecycle for Timer {
    fn init(&mut self)
        ensures
            final(self)@ == timer_reset_view(),
    {
        self.reset();
    }

    fn reset(&mut self)
        ensures
            final(self)@ == timer_reset_view(),
    {
        self.counter = 0;
        self.prescale_counter = 0;
        self.control = 0;
        self.compare = 0xFFFF_FFFF;
    }

    fn tick(&mut self)
        ensures
            final(self)@ == timer_ticked(old(self)@),
    {
        if !self.enabled() {
            return;
        }
        self.prescale_counter = add_wrapping(self.prescale_counter, 1);
        if self.prescale_counter < self.prescaler_divider() {
            return;
        }
        self.prescale_counter = 0;
        self.counter = add_wrapping(self.counter, 1);
        if self.counter >= self.read_compare() {
            self.control = self.control | CONTROL_IRQ_PENDING;
            if self.control & CONTROL_AUTO_RELOAD != 0 {
                self.counter = 0;
            } else {
                self.control = self.control & !CONTROL_ENABLE;
            }
        }
    }
}

impl Default for Timer {
    fn default() -> (t: Self)
        ensures
            t@ == timer_reset_view(),
    {
        Self::new()
    }
}

impl BusDevice for Timer {
    fn size(&self) -> (r: u32)
        ensures
            r == 12,
    {
        12
    }

    fn read8(&mut self, offset: u32) -> (r: Option<u8>)
        ensures
            final(self)@ == old(self)@,
            r == timer_read8(old(self)@, offset),
    {
        if offset <= 3 {
            let shift = (3 - (offset - COUNTER_OFFSET)) * 8;
            Some((self.read_counter() >> shift) as u8)
        } else if CONTROL_OFFSET <= offset && offset <= 7 {
            let shift = (3 - (offset - CONTROL_OFFSET)) * 8;
            Some((self.read_control() >> shift) as u8)
        } else if COMPARE_OFFSET <= offset && offset <= 11 {
            let shift = (3 - (offset - COMPARE_OFFSET)) * 8;
            Some((self.read_compare() >> shift) as u8)
        } else {
            None
        }
    }

    fn write8(&mut self, offset: u32, value: u8) -> (r: Option<()>)
        ensures
            (final(self)@, r) == timer_write8(old(self)@, offset, value),
    {
        if offset <= 3 {
            let shift = (3 - (offset - COUNTER_OFFSET)) * 8;
            let mask = !(0xFFu32 << shift);
            let new_counter = (self.read_counter() & mask) | ((value as u32) << shift);
            self.write_counter(new_counter);
            Some(())
        } else if CONTROL_OFFSET <= offset && offset <= 7 {
            let shift = (3 - (offset - CONTROL_OFFSET)) * 8;
            let mask = !(0xFFu32 << shift);
            let new_control = (self.read_control() & mask) | ((value as u32) << shift);
            self.write_control(new_control);
            Some(())
        } else if COMPARE_OFFSET <= offset && offset <= 11 {
            let shift = (3 - (offset - COMPARE_OFFSET)) * 8;
            let mask = !(0xFFu32 << shift);
            let new_compare = (self.read_compare() & mask) | ((value as u32) << shift);
            self.write_compare(new_compare);
            Some(())
        } else {
            None
        }
    }

    fn interrupt_asserted(&self) -> (r: bool)
        ensures
            r == timer_asserted(self@),
    {
        Timer::interrupt_asserted(self)
    }
}

} // verus!
