//! What the system bus promises of memory: a read gives back what a write wrote.
use vstd::prelude::*;

use crate::word::wrap32;

use super::device::{dv_read8, dv_write8, DeviceView};
use super::mapped_device::{mv_contains, mv_with, MappedView};
use super::system_bus::{
    be_word, bus_read16, bus_read32, bus_read8, bus_wf, bus_write16, bus_write32, bus_write8, misaligned,
    read32_from1, read32_from2, read8_from, write32_from1, write8_from, SystemBusView,
};

verus! {

/// A bus where device `k` is a RAM whose window holds `addr`.
pub open spec fn ram_at(v: SystemBusView, k: int, addr: u32) -> bool {
    &&& bus_wf(v)
    &&& 0 <= k < v.devices.len()
    &&& v.devices[k].dev is Ram
    &&& mv_contains(v.devices[k], addr)
}

/// The byte of RAM `k` at `addr`.
pub open spec fn ram_byte(v: SystemBusView, k: int, addr: u32) -> u8 {
    v.devices[k].dev->Ram_0[addr - v.devices[k].base]
}

proof fn lemma_skip(devs: Seq<MappedView>, addr: u32, value: u8, i: int, k: int)
    requires
        0 <= i <= k < devs.len(),
        forall|j: int| 0 <= j < k ==> !mv_contains(#[trigger] devs[j], addr),
    ensures
        read8_from(devs, addr, i) == read8_from(devs, addr, k),
        write8_from(devs, addr, value, i) == write8_from(devs, addr, value, k),
    decreases k - i,
{
    if i < k {
        lemma_skip(devs, addr, value, i + 1, k);
    }
}

/// Only device `k` answers at an address inside its window.
proof fn lemma_ram_answers(v: SystemBusView, k: int, addr: u32, value: u8)
    requires
        ram_at(v, k, addr),
    ensures
        bus_read8(v, addr) == (v, Ok::<u8, super::error::SystemBusError>(ram_byte(v, k, addr))),
        bus_write8(v, addr, value).1 is Ok,
        bus_write8(v, addr, value).0 == (SystemBusView {
            devices: v.devices.update(
                k,
                mv_with(v.devices[k], DeviceView::Ram(v.devices[k].dev->Ram_0.update(addr - v.devices[k].base, value))),
            ),
            ..v
        }),
{
    assert forall|j: int| 0 <= j < k implies !mv_contains(#[trigger] v.devices[j], addr) by {
        assert(super::system_bus::windows_disjoint(v.devices[j], v.devices[k]));
    }
    lemma_skip(v.devices, addr, value, 0, k);
    let d = v.devices[k].dev;
    assert(dv_read8(d, (addr - v.devices[k].base) as u32).0 == d);
    assert(v.devices.update(k, mv_with(v.devices[k], d)) =~= v.devices);
}

/// A RAM stays a RAM of the same size at the same place after a write to it.
proof fn lemma_ram_write_keeps(v: SystemBusView, k: int, addr: u32, value: u8, other: u32)
    requires
        ram_at(v, k, addr),
        ram_at(v, k, other),
    ensures
        ram_at(bus_write8(v, addr, value).0, k, other),
        ram_byte(bus_write8(v, addr, value).0, k, other) == (if other == addr { value } else { ram_byte(v, k, other) }),
{
    lemma_ram_answers(v, k, addr, value);
    let w = bus_write8(v, addr, value).0;
    assert forall|i: int, j: int| 0 <= i < j < w.devices.len() implies super::system_bus::windows_disjoint(
        #[trigger] w.devices[i],
        #[trigger] w.devices[j],
    ) by {
        assert(super::system_bus::windows_disjoint(v.devices[i], v.devices[j]));
    }
    assert forall|i: int| 0 <= i < w.devices.len() implies super::mapped_device::mv_wf(#[trigger] w.devices[i])
        && super::device::dv_size(w.devices[i].dev) > 0 by {
        assert(super::mapped_device::mv_wf(v.devices[i]));
    }
}

/// Writing a byte to RAM through the bus and reading it back gives the byte.
pub proof fn lemma_ram_write8_read8(v: SystemBusView, k: int, addr: u32, value: u8)
    requires
        ram_at(v, k, addr),
    ensures
        bus_write8(v, addr, value).1 is Ok,
        bus_read8(bus_write8(v, addr, value).0, addr).1 == Ok::<u8, super::error::SystemBusError>(value),
{
    lemma_ram_answers(v, k, addr, value);
    lemma_ram_write_keeps(v, k, addr, value, addr);
    lemma_ram_answers(bus_write8(v, addr, value).0, k, addr, value);
}

proof fn lemma_be_bytes(value: u32)
    by (bit_vector)
    ensures
        be_word((value >> 24u32) as u8, (value >> 16u32) as u8, (value >> 8u32) as u8, value as u8) == value,
{
}

proof fn lemma_be_half(value: u16)
    by (bit_vector)
    ensures
        ((((value >> 8u16) as u8) as u16) << 8u16 | ((value as u8) as u16)) as u16 == value,
{
}

proof fn lemma_aligned(addr: u32)
    by (bit_vector)
    requires
        addr % 4 == 0,
    ensures
        addr & 3u32 == 0,
        addr & 1u32 == 0,
{
}

proof fn lemma_aligned2(addr: u32)
    by (bit_vector)
    requires
        addr % 2 == 0,
    ensures
        addr & 1u32 == 0,
{
}

/// Writing an aligned word to RAM through the bus and reading it back gives the word.
pub proof fn lemma_ram_write32_read32(v: SystemBusView, k: int, addr: u32, value: u32)
    requires
        ram_at(v, k, addr),
        addr % 4 == 0,
        addr + 4 <= v.devices[k].end,
    ensures
        bus_write32(v, addr, value).1 is Ok,
        bus_read32(bus_write32(v, addr, value).0, addr).1 == Ok::<u32, super::error::SystemBusError>(value),
{
    lemma_aligned(addr);
    assert(!misaligned(addr, 4));
    let a0 = addr;
    let a1 = wrap32(addr + 1);
    let a2 = wrap32(addr + 2);
    let a3 = wrap32(addr + 3);
    assert(a1 == addr + 1 && a2 == addr + 2 && a3 == addr + 3);
    let b0 = (value >> 24u32) as u8;
    let b1 = (value >> 16u32) as u8;
    let b2 = (value >> 8u32) as u8;
    let b3 = value as u8;
    // the four writes
    lemma_ram_write_keeps(v, k, a0, b0, a0);
    lemma_ram_write_keeps(v, k, a0, b0, a1);
    lemma_ram_write_keeps(v, k, a0, b0, a2);
    lemma_ram_write_keeps(v, k, a0, b0, a3);
    let w1 = bus_write8(v, a0, b0).0;
    lemma_ram_answers(v, k, a0, b0);
    lemma_ram_write_keeps(w1, k, a1, b1, a0);
    lemma_ram_write_keeps(w1, k, a1, b1, a1);
    lemma_ram_write_keeps(w1, k, a1, b1, a2);
    lemma_ram_write_keeps(w1, k, a1, b1, a3);
    let w2 = bus_write8(w1, a1, b1).0;
    lemma_ram_answers(w1, k, a1, b1);
    lemma_ram_write_keeps(w2, k, a2, b2, a0);
    lemma_ram_write_keeps(w2, k, a2, b2, a1);
    lemma_ram_write_keeps(w2, k, a2, b2, a2);
    lemma_ram_write_keeps(w2, k, a2, b2, a3);
    let w3 = bus_write8(w2, a2, b2).0;
    lemma_ram_answers(w2, k, a2, b2);
    lemma_ram_write_keeps(w3, k, a3, b3, a0);
    lemma_ram_write_keeps(w3, k, a3, b3, a1);
    lemma_ram_write_keeps(w3, k, a3, b3, a2);
    lemma_ram_write_keeps(w3, k, a3, b3, a3);
    lemma_ram_answers(w3, k, a3, b3);
    let w4 = bus_write8(w3, a3, b3).0;
    assert(bus_write32(v, addr, value).0 == w4);
    // the four reads leave the bus unchanged
    lemma_ram_answers(w4, k, a0, 0);
    lemma_ram_answers(w4, k, a1, 0);
    lemma_ram_answers(w4, k, a2, 0);
    lemma_ram_answers(w4, k, a3, 0);
    lemma_be_bytes(value);
}

/// Writing an aligned halfword to RAM through the bus and reading it back gives the halfword.
pub proof fn lemma_ram_write16_read16(v: SystemBusView, k: int, addr: u32, value: u16)
    requires
        ram_at(v, k, addr),
        addr % 2 == 0,
        addr + 2 <= v.devices[k].end,
    ensures
        bus_write16(v, addr, value).1 is Ok,
        bus_read16(bus_write16(v, addr, value).0, addr).1 == Ok::<u16, super::error::SystemBusError>(value),
{
    lemma_aligned2(addr);
    assert(!misaligned(addr, 2));
    let a1 = wrap32(addr + 1);
    assert(a1 == addr + 1);
    let b0 = (value >> 8u16) as u8;
    let b1 = value as u8;
    lemma_ram_write_keeps(v, k, addr, b0, addr);
    lemma_ram_write_keeps(v, k, addr, b0, a1);
    lemma_ram_answers(v, k, addr, b0);
    let w1 = bus_write8(v, addr, b0).0;
    lemma_ram_write_keeps(w1, k, a1, b1, addr);
    lemma_ram_write_keeps(w1, k, a1, b1, a1);
    lemma_ram_answers(w1, k, a1, b1);
    let w2 = bus_write8(w1, a1, b1).0;
    lemma_ram_answers(w2, k, addr, 0);
    lemma_ram_answers(w2, k, a1, 0);
    lemma_be_half(value);
}

} // verus!
