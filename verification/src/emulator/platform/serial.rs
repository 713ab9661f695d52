use vstd::prelude::*;

use crate::emulator::lifecycle::Lifecycle;

use super::bus_device::BusDevice;
use super::timer::{reg_byte, reg_with_byte};

verus! {

/// Where a serial port sends the bytes it transmits.
pub trait SerialSink {
    fn write_byte(&mut self, byte: u8);
}

/// Where a serial port takes the bytes it receives.
pub trait SerialSource {
    fn read_byte(&mut self) -> Option<u8>;

    fn has_byte(&self) -> bool;
}

/// A sink that keeps every transmitted byte.
#[derive(Debug, Clone)]
pub struct VecSerialSink {
    bytes: Vec<u8>,
}

impl View for VecSerialSink {
    type V = Seq<u8>;

    closed spec fn view(&self) -> Seq<u8> {
        self.bytes@
    }
}

impl VecSerialSink {
    pub fn new() -> (s: Self)
        ensures
            s@ == Seq::<u8>::empty(),
    {
        Self { bytes: Vec::new() }
    }

    /// The bytes transmitted so far.
    pub fn bytes(&self) -> (r: &[u8])
        ensures
            r@ == self@,
    {
        self.bytes.as_slice()
    }

    /// Hands out the bytes transmitted so far and forgets them.
    pub fn take_bytes(&mut self) -> (r: Vec<u8>)
        ensures
            r@ == old(self)@,
            final(self)@ == Seq::<u8>::empty(),
    {
        let mut taken: Vec<u8> = Vec::new();
        std::mem::swap(&mut taken, &mut self.bytes);
        taken
    }
}

impl Default for VecSerialSink {
    fn default() -> (s: Self)
        ensures
            s@ == Seq::<u8>::empty(),
    {
        Self::new()
    }
}

impl SerialSink for VecSerialSink {
    fn write_byte(&mut self, byte: u8)
        ensures
            final(self)@ == old(self)@.push(byte),
    {
        self.bytes.push(byte);
    }
}

/// A source that hands out a fixed sequence of bytes, in order.
#[derive(Debug, Clone)]
pub struct VecSerialSource {
    bytes: Vec<u8>,
    next: usize,
}

impl View for VecSerialSource {
    type V = Seq<u8>;

    /// The bytes not yet received.
    closed spec fn view(&self) -> Seq<u8> {
        if self.next <= self.bytes@.len() {
            self.bytes@.subrange(self.next as int, self.bytes@.len() as int)
        } else {
            Seq::empty()
        }
    }
}

impl VecSerialSource {
    pub fn new(bytes: Vec<u8>) -> (s: Self)
        ensures
            s@ == bytes@,
    {
        let s = Self { bytes, next: 0 };
        assert(s@ =~= s.bytes@);
        s
    }
}

impl Default for VecSerialSource {
    fn default() -> (s: Self)
        ensures
            s@ == Seq::<u8>::empty(),
    {
        Self::new(Vec::new())
    }
}

impl SerialSource for VecSerialSource {
    fn read_byte(&mut self) -> (r: Option<u8>)
        ensures
            if old(self)@.len() == 0 {
                r is None && final(self)@ == old(self)@
            } else {
                r == Some(old(self)@[0]) && final(self)@ == old(self)@.drop_first()
            },
    {
        if self.next < self.bytes.len() {
            let byte = self.bytes[self.next];
            self.next = self.next + 1;
            assert(self@ =~= old(self)@.drop_first());
            Some(byte)
        } else {
            None
        }
    }

    fn has_byte(&self) -> (r: bool)
        ensures
            r <==> self@.len() > 0,
    {
        self.next < self.bytes.len()
    }
}

pub const DATA_OFFSET: u32 = 0x00;
pub const CONTROL_OFFSET: u32 = 0x04;
pub const STATUS_OFFSET: u32 = 0x08;

pub const CONTROL_ENABLE: u32 = 1;
pub const CONTROL_TX_ENABLE: u32 = 2;
pub const CONTROL_RX_ENABLE: u32 = 4;
pub const CONTROL_BAUD_SHIFT: u32 = 4;
pub const CONTROL_BAUD_MASK: u32 = 0xF0;
pub const CONTROL_DATA_BITS_SHIFT: u32 = 8;
pub const CONTROL_DATA_BITS_MASK: u32 = 0x300;
pub const CONTROL_PARITY_SHIFT: u32 = 10;
pub const CONTROL_PARITY_MASK: u32 = 0xC00;
pub const CONTROL_STOP_BITS_SHIFT: u32 = 12;
pub const CONTROL_STOP_BITS_MASK: u32 = 0x1000;
pub const CONTROL_WRITABLE_MASK: u32 = 0x1FF7;

pub const STATUS_RX_READY: u32 = 1;
pub const STATUS_TX_READY: u32 = 2;

/// A serial port: its control register, what it has transmitted and what is
/// left to receive.
pub ghost struct SerialView {
    pub control: u32,
    pub output: Seq<u8>,
    pub input: Seq<u8>,
}

pub open spec fn serial_enabled(s: SerialView) -> bool {
    s.control & CONTROL_ENABLE != 0
}

pub open spec fn serial_tx_enabled(s: SerialView) -> bool {
    s.control & CONTROL_TX_ENABLE != 0
}

pub open spec fn serial_rx_enabled(s: SerialView) -> bool {
    s.control & CONTROL_RX_ENABLE != 0
}

/// The status register: always ready to transmit; ready to receive when the
/// port and its receiver are enabled and input is waiting.
pub open spec fn serial_status(s: SerialView) -> u32 {
    if serial_enabled(s) && serial_rx_enabled(s) && s.input.len() > 0 {
        STATUS_TX_READY | STATUS_RX_READY
    } else {
        STATUS_TX_READY
    }
}

/// A data read: the next input byte when receiving is enabled (zero when there
/// is none), otherwise zero with nothing consumed.
pub open spec fn serial_read_data(s: SerialView) -> (SerialView, u8) {
    if serial_enabled(s) && serial_rx_enabled(s) {
        if s.input.len() > 0 {
            (SerialView { input: s.input.drop_first(), ..s }, s.input[0])
        } else {
            (s, 0u8)
        }
    } else {
        (s, 0u8)
    }
}

/// A data write transmits the byte when transmitting is enabled.
pub open spec fn serial_write_data(s: SerialView, byte: u8) -> SerialView {
    if serial_enabled(s) && serial_tx_enabled(s) {
        SerialView { output: s.output.push(byte), ..s }
    } else {
        s
    }
}

pub open spec fn serial_read8(s: SerialView, offset: u32) -> (SerialView, Option<u8>) {
    if offset == DATA_OFFSET {
        let (s2, b) = serial_read_data(s);
        (s2, Some(b))
    } else if 4 <= offset < 8 {
        (s, Some(reg_byte(s.control, (offset - 4) as u32)))
    } else if 8 <= offset < 12 {
        (s, Some(reg_byte(serial_status(s), (offset - 8) as u32)))
    } else {
        (s, None)
    }
}

pub open spec fn serial_write8(s: SerialView, offset: u32, value: u8) -> (SerialView, Option<()>) {
    if offset == DATA_OFFSET {
        (serial_write_data(s, value), Some(()))
    } else if 4 <= offset < 8 {
        (
            SerialView {
                control: reg_with_byte(s.control, (offset - 4) as u32, value) & CONTROL_WRITABLE_MASK,
                ..s
            },
            Some(()),
        )
    } else {
        (s, None)
    }
}

/// A memory-mapped serial port with a data, a control and a status register.
#[derive(Debug, Clone)]
pub struct Serial {
    sink: VecSerialSink,
    source: VecSerialSource,
    control: u32,
}

impl View for Serial {
    type V = SerialView;

    closed spec fn view(&self) -> SerialView {
        SerialView { control: self.control, output: self.sink@, input: self.source@ }
    }
}

impl Serial {
    pub fn new(sink: VecSerialSink, source: VecSerialSource) -> (s: Self)
        ensures
            s@ == (SerialView { control: 0, output: sink@, input: source@ }),
    {
        Self { sink, source, control: 0 }
    }

    pub fn sink(&self) -> (r: &VecSerialSink)
        ensures
            r@ == self@.output,
    {
        &self.sink
    }

    /// Hands out the bytes transmitted so far and forgets them.
    pub fn take_output(&mut self) -> (r: Vec<u8>)
        ensures
            r@ == old(self)@.output,
            final(self)@ == (SerialView { output: Seq::empty(), ..old(self)@ }),
    {
        self.sink.take_bytes()
    }

    pub fn enabled(&self) -> (r: bool)
        ensures
            r == serial_enabled(self@),
    {
        self.control & CONTROL_ENABLE != 0
    }

    pub fn tx_enabled(&self) -> (r: bool)
        ensures
            r == serial_tx_enabled(self@),
    {
        self.control & CONTROL_TX_ENABLE != 0
    }

    pub fn rx_enabled(&self) -> (r: bool)
        ensures
            r == serial_rx_enabled(self@),
    {
        self.control & CONTROL_RX_ENABLE != 0
    }

    /// Writes the control register; bits that are not writable read as zero.
    pub fn write_control(&mut self, value: u32)
        ensures
            final(self)@ == (SerialView { control: value & CONTROL_WRITABLE_MASK, ..old(self)@ }),
    {
        self.control = value & CONTROL_WRITABLE_MASK;
    }

    fn read_data(&mut self) -> (r: u8)
        ensures
            (final(self)@, r) == serial_read_data(old(self)@),
    {
        if self.enabled() && self.rx_enabled() {
            match self.source.read_byte() {
                Some(byte) => byte,
                None => 0,
            }
        } else {
            0
        }
    }

    fn write_data(&mut self, byte: u8)
        ensures
            final(self)@ == serial_write_data(old(self)@, byte),
    {
        if self.enabled() && self.tx_enabled() {
            self.sink.write_byte(byte);
        }
    }

    pub fn status(&self) -> (r: u32)
        ensures
            r == serial_status(self@),
    {
        if self.enabled() && self.rx_enabled() && self.source.has_byte() {
            STATUS_TX_READY | STATUS_RX_READY
        } else {
            STATUS_TX_READY
        }
    }
}

impl Lifecycle for Serial {
    fn init(&mut self)
        ensures
            final(self)@ == (SerialView { control: 0, ..old(self)@ }),
    {
        self.reset();
    }

    fn reset(&mut self)
        ensures
            final(self)@ == (SerialView { control: 0, ..old(self)@ }),
    {
        self.control = 0;
    }
}

impl BusDevice for Serial {
    fn size(&self) -> (r: u32)
        ensures
            r == 12,
    {
        12
    }

    fn read8(&mut self, offset: u32) -> (r: Option<u8>)
        ensures
            (final(self)@, r) == serial_read8(old(self)@, offset),
    {
        if offset == DATA_OFFSET {
            Some(self.read_data())
        } else if CONTROL_OFFSET <= offset && offset <= 7 {
            let shift = (3 - (offset - CONTROL_OFFSET)) * 8;
            Some((self.control >> shift) as u8)
        } else if STATUS_OFFSET <= offset && offset <= 11 {
            let shift = (3 - (offset - STATUS_OFFSET)) * 8;
            Some((self.status() >> shift) as u8)
        } else {
            None
        }
    }

    fn write8(&mut self, offset: u32, value: u8) -> (r: Option<()>)
        ensures
            (final(self)@, r) == serial_write8(old(self)@, offset, value),
    {
        if offset == DATA_OFFSET {
            self.write_data(value);
            Some(())
        } else if CONTROL_OFFSET <= offset && offset <= 7 {
            let shift = (3 - (offset - CONTROL_OFFSET)) * 8;
            let mask = !(0xFFu32 << shift);
            let lane = (value as u32) << shift;
            self.write_control((self.control & mask) | lane);
            Some(())
        } else {
            None
        }
    }
}

/// The low byte of the status register tells a program what a data read
/// would give: the receive-ready bit is set exactly when a read takes a
/// waiting input byte, which is then the first byte of input; the
/// transmit-ready bit is always set.
pub proof fn lemma_status_tells_what_a_read_gives(s: SerialView)
    ensures
        ({
            let status = serial_read8(s, (STATUS_OFFSET + 3) as u32).1->Some_0;
            let (after, byte) = serial_read_data(s);
            &&& serial_read8(s, (STATUS_OFFSET + 3) as u32).1 is Some
            &&& status & 2 == 2
            &&& (status & 1 == 1) <==> after.input.len() < s.input.len()
            &&& status & 1 == 1 ==> byte == s.input[0] && after.input == s.input.drop_first()
        }),
{
    assert((2u32 | 1u32) == 3u32) by (bit_vector);
    assert(serial_status(s) == 3u32 || serial_status(s) == 2u32);
    assert(serial_status(s) == 3u32 <==> (serial_enabled(s) && serial_rx_enabled(s) && s.input.len() > 0));
    assert(reg_byte(3u32, 3) == 3u8 && reg_byte(2u32, 3) == 2u8) by (bit_vector);
    assert(serial_read8(s, 11u32).1 == Some(reg_byte(serial_status(s), 3)));
    assert((3u8 & 2u8) == 2u8 && (3u8 & 1u8) == 1u8 && (2u8 & 2u8) == 2u8 && (2u8 & 1u8) == 0u8) by (bit_vector);
}

} // verus!
