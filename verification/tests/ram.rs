use viv32::emulator::platform::{BusDevice, Ram};


#[test]
fn read_write_byte_round_trip() {
    let mut ram = Ram::new(1024);

    ram.write8(12, 0xAB).unwrap();

    assert_eq!(ram.read8(12).unwrap(), 0xAB);
}

#[test]
fn new_ram_reads_as_zero() {
    let mut ram = Ram::new(4);

    assert_eq!(ram.read8(0), Some(0));
    assert_eq!(ram.read8(3), Some(0));
}

#[test]
fn read8_returns_none_outside_ram() {
    let mut ram = Ram::new(4);

    assert_eq!(ram.read8(4), None);
}

#[test]
fn write8_returns_none_outside_ram() {
    let mut ram = Ram::new(4);

    assert_eq!(ram.write8(4, 0xAA), None);
}

#[test]
fn write8_at_last_byte_succeeds() {
    let mut ram = Ram::new(4);

    assert_eq!(ram.write8(3, 0xAA), Some(()));
    assert_eq!(ram.read8(3), Some(0xAA));
}
