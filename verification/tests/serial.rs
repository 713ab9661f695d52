use viv32::emulator::platform::serial::{CONTROL_ENABLE, CONTROL_OFFSET, CONTROL_RX_ENABLE, CONTROL_TX_ENABLE, DATA_OFFSET};
use viv32::emulator::platform::{BusDevice, Serial, VecSerialSink, VecSerialSource};


type TestSerial = Serial;

fn test_serial() -> TestSerial {
    TestSerial::new(VecSerialSink::new(), VecSerialSource::default())
}

#[test]
fn read8_control_exposes_big_endian_bytes() {
    let mut serial = test_serial();

    serial.write_control(0x0000_1303);

    assert_eq!(serial.read8(CONTROL_OFFSET), Some(0x00));
    assert_eq!(serial.read8(CONTROL_OFFSET + 1), Some(0x00));
    assert_eq!(serial.read8(CONTROL_OFFSET + 2), Some(0x13));
    assert_eq!(serial.read8(CONTROL_OFFSET + 3), Some(0x03));
}

#[test]
fn write8_control_updates_big_endian_byte_lane() {
    let mut serial = test_serial();

    assert_eq!(
        serial.write8(CONTROL_OFFSET + 3, CONTROL_ENABLE as u8),
        Some(())
    );
    assert!(serial.enabled());
}

#[test]
fn read8_data_returns_zero_when_rx_disabled() {
    let mut serial = test_serial();

    assert_eq!(serial.read8(DATA_OFFSET), Some(0));
}

#[test]
fn serial_unknown_offsets_return_none() {
    let mut serial = test_serial();

    assert_eq!(serial.read8(0x0C), None);
    assert_eq!(serial.write8(0x0C, 0xFF), None);
}

#[test]
fn write8_data_emits_only_when_enabled_and_tx_enabled() {
    let mut serial = test_serial();

    assert_eq!(serial.write8(DATA_OFFSET, b'A'), Some(()));
    assert_eq!(serial.sink().bytes(), b"");

    assert_eq!(
        serial.write8(CONTROL_OFFSET + 3, CONTROL_ENABLE as u8),
        Some(())
    );
    assert_eq!(serial.write8(DATA_OFFSET, b'B'), Some(()));
    assert_eq!(serial.sink().bytes(), b"");

    assert_eq!(
        serial.write8(
            CONTROL_OFFSET + 3,
            (CONTROL_ENABLE | CONTROL_TX_ENABLE) as u8,
        ),
        Some(())
    );
    assert_eq!(serial.write8(DATA_OFFSET, b'C'), Some(()));
    assert_eq!(serial.sink().bytes(), b"C");
}

#[test]
fn read8_data_consumes_source_when_enabled_and_rx_enabled() {
    let mut serial =
        TestSerial::new(VecSerialSink::new(), VecSerialSource::new(b"AB".to_vec()));

    serial.write_control(CONTROL_ENABLE | CONTROL_RX_ENABLE);

    assert_eq!(serial.read8(DATA_OFFSET), Some(b'A'));
    assert_eq!(serial.read8(DATA_OFFSET), Some(b'B'));
    assert_eq!(serial.read8(DATA_OFFSET), Some(0));
}
