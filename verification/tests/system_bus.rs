use viv32::emulator::platform::{Clock, Device, PendingInterrupt, Ram, Serial, SystemBus, SystemBusError, Timer, VecSerialSink, VecSerialSource};
use viv32::emulator::Lifecycle;


fn test_bus() -> SystemBus {
    let mut bus = SystemBus::new();
    let ram = Device::Ram(Ram::new(1024));
    bus.map_device(0, ram);
    bus
}

#[test]
fn ram_byte_roundtrip_routes_through_system_bus() {
    let mut bus = test_bus();

    bus.write8(0x0000_0010, 0xAB).unwrap();

    assert_eq!(bus.read8(0x0000_0010), Ok(0xAB));
}

#[test]
fn ram_halfword_roundtrip_uses_big_endian_bus_helpers() {
    let mut bus = test_bus();

    bus.write16(0x0000_0010, 0x1234).unwrap();

    assert_eq!(bus.read8(0x0000_0010), Ok(0x12));
    assert_eq!(bus.read8(0x0000_0011), Ok(0x34));
    assert_eq!(bus.read16(0x0000_0010), Ok(0x1234));
}

#[test]
fn ram_word_roundtrip_uses_big_endian_bus_helpers() {
    let mut bus = test_bus();

    bus.write32(0x0000_0010, 0x1234_5678).unwrap();

    assert_eq!(bus.read8(0x0000_0010), Ok(0x12));
    assert_eq!(bus.read8(0x0000_0011), Ok(0x34));
    assert_eq!(bus.read8(0x0000_0012), Ok(0x56));
    assert_eq!(bus.read8(0x0000_0013), Ok(0x78));
    assert_eq!(bus.read32(0x0000_0010), Ok(0x1234_5678));
}

#[test]
fn misaligned_halfword_access_fails_through_system_bus() {
    let mut bus = test_bus();

    assert_eq!(
        bus.read16(0x0000_0001),
        Err(SystemBusError::MisalignedAccess {
            addr: 0x0000_0001,
            alignment: 2,
        })
    );

    assert_eq!(
        bus.write16(0x0000_0001, 0x1234),
        Err(SystemBusError::MisalignedAccess {
            addr: 0x0000_0001,
            alignment: 2,
        })
    );
}

#[test]
fn misaligned_word_access_fails_through_system_bus() {
    let mut bus = test_bus();

    assert_eq!(
        bus.read32(0x0000_0002),
        Err(SystemBusError::MisalignedAccess {
            addr: 0x0000_0002,
            alignment: 4,
        })
    );

    assert_eq!(
        bus.write32(0x0000_0002, 0x1234_5678),
        Err(SystemBusError::MisalignedAccess {
            addr: 0x0000_0002,
            alignment: 4,
        })
    );
}

#[test]
fn unmapped_byte_read_fails() {
    let mut bus = test_bus();

    assert_eq!(
        bus.read8(0x0000_1000),
        Err(SystemBusError::AddressUnmapped { addr: 0x0000_1000 })
    );
}

#[test]
fn unmapped_byte_write_fails() {
    let mut bus = test_bus();

    assert_eq!(
        bus.write8(0x0000_1000, 0xAB),
        Err(SystemBusError::AddressUnmapped { addr: 0x0000_1000 })
    );
}

#[test]
fn read32_clock_low_word_uses_big_endian_mapped_bytes() {
    let mut bus = test_bus();
    let clock = Device::Clock(Clock::new());
    bus.map_device(0xFFFF_0000, clock);

    bus.tick();
    bus.tick();

    assert_eq!(bus.read8(0xFFFF_0003), Ok(2));
}

#[test]
fn write32_timer_counter_uses_big_endian_mapped_bytes() {
    let mut bus = test_bus();
    let timer = Device::Timer(Timer::new());
    bus.map_device(0xFFFF_0000, timer);

    bus.write32(0xFFFF_0000, 0x1234_5678).unwrap();

    assert_eq!(bus.read16(0xFFFF_0000), Ok(0x1234));
    assert_eq!(bus.read16(0xFFFF_0002), Ok(0x5678));
}

#[test]
fn address_below_serial_base_does_not_map_to_serial_by_wrapping() {
    let mut bus = test_bus();
    let serial = Device::Serial(Serial::new(
        VecSerialSink::new(),
        VecSerialSource::new(vec![0xFu8; 12]),
    ));
    bus.map_device(0xFFFF_0000, serial);

    assert_eq!(
        bus.read8(0xFFFE_FFFF),
        Err(SystemBusError::AddressUnmapped { addr: 0xFFFE_FFFF })
    );
}

#[test]
fn unmapped_address_returns_address_unmapped_after_all_devices_decline() {
    let mut bus = test_bus();

    assert_eq!(
        bus.read8(0x0000_1000),
        Err(SystemBusError::AddressUnmapped { addr: 0x0000_1000 })
    );
}

#[test]
fn serial_output_is_handed_out_in_mapping_order_once() {
    let mut bus = SystemBus::new();
    bus.map_device(0x100, Device::Serial(Serial::new(VecSerialSink::new(), VecSerialSource::default())));
    bus.map_device(0x200, Device::Serial(Serial::new(VecSerialSink::new(), VecSerialSource::default())));
    bus.write32(0x104, 3).unwrap();
    bus.write32(0x204, 3).unwrap();
    bus.write8(0x200, b'b').unwrap();
    bus.write8(0x100, b'a').unwrap();
    bus.write8(0x200, b'c').unwrap();
    assert_eq!(bus.take_serial_output(), b"abc".to_vec());
    assert_eq!(bus.take_serial_output(), Vec::<u8>::new());
}

#[test]
fn pending_interrupt_names_the_asserting_device_base() {
    let mut bus = SystemBus::standard(1024);
    assert_eq!(bus.pending_interrupt(), None);
    assert_eq!(bus.pending_interrupt_kind(), None);
    bus.write32(0xFFFF_0200, 250).unwrap();
    bus.write32(0xFFFF_0204, 3).unwrap();
    bus.write32(0xFFFF_0208, 256).unwrap();
    for _ in 0..20 {
        if bus.pending_interrupt().is_some() {
            break;
        }
        bus.tick();
    }
    assert_eq!(bus.pending_interrupt(), Some(0xFFFF_0200));
    assert_eq!(bus.pending_interrupt_kind(), Some(PendingInterrupt::Timer));
}
