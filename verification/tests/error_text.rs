use viv32::assembler::{AssemblerError, ParseError};
use viv32::emulator::platform::SystemBusError;
use viv32::isa::EncodeError;
use viv32::ld::LinkerError;
use viv32::text::IntParseError;
use viv32::vo::{BssParseError, SymbolParseError, VoError};

#[test]
fn bus_errors_read_as_messages() {
    assert_eq!(SystemBusError::AddressUnmapped { addr: 0x1000 }.to_string(), "unmapped bus address: 0x00001000");
    assert_eq!(SystemBusError::UnsupportedAccess { addr: 0xFFFF_0004 }.to_string(), "UnsupportedAccess: 0xFFFF0004");
    assert_eq!(
        SystemBusError::MisalignedAccess { addr: 2, alignment: 4 }.to_string(),
        "misaligned bus access: 0x00000002, [4]"
    );
    assert_eq!(SystemBusError::AddressOverflow.to_string(), "bus address overflow");
}

#[test]
fn object_errors_name_their_variant() {
    assert_eq!(VoError::InvalidObject("missing BYTES marker".to_owned()).to_string(), "InvalidObject: missing BYTES marker");
    assert_eq!(VoError::ShiftError.to_string(), "ShiftError");
    assert_eq!(
        VoError::BssError(BssParseError::InvalidSize(IntParseError::InvalidDigit)).to_string(),
        "BssError: InvalidSize(ParseIntError { kind: InvalidDigit })"
    );
    assert_eq!(VoError::SymbolError(SymbolParseError::MissingName).to_string(), "SymbolError: MissingName");
}

#[test]
fn assembler_errors_show_file_line_and_cause() {
    let e = AssemblerError { err: ParseError::InvalidName("9x".to_owned()), filename: "a.s".to_owned(), line: 12 };
    assert_eq!(e.to_string(), "[a.s:12] Invalid symbol name: 9x");
    assert_eq!(
        ParseError::EncodeError(EncodeError::InvalidImmediate { size: 16, value: 70000 }).to_string(),
        "InvalidImmediate { size: 16, value: 70000 }"
    );
    assert_eq!(ParseError::EncodeError(EncodeError::InvalidRegister(17)).to_string(), "InvalidRegister(17)");
    assert_eq!(ParseError::ObjectError(VoError::WidthError).to_string(), "WidthError");
}

#[test]
fn linker_errors_are_their_messages() {
    assert_eq!(LinkerError::UnknownLabel("Unable to link undeclared label: x".to_owned()).to_string(), "Unable to link undeclared label: x");
}

fn read_error(data: &[u8]) -> String {
    match viv32::vo::ObjectFile::read(data) {
        Err(VoError::InvalidObject(m)) => m,
        other => panic!("expected an invalid object, got {:?}", other),
    }
}

#[test]
fn unreadable_objects_say_what_is_wrong() {
    assert_eq!(read_error(b""), "missing BYTES marker");
    assert_eq!(read_error(b"BYTES 0"), "missing bytecode after BYTES marker");
    assert_eq!(read_error(b"\nBYTES 00000000\n"), "missing object header");
    assert_eq!(read_error(b"VIVO 2\nBYTES 00000000\n"), "invalid object header `VIVO 2`");
    assert_eq!(read_error(b"VIVO 1\nBYTES 00000000\n"), "missing BSS header");
    assert_eq!(read_error(b"VIVO 1\nBSS\nBYTES 00000000\n"), "expected `BSS <count>`, found `BSS`");
    assert_eq!(
        read_error(b"VIVO 1\nBSS x\nBYTES 00000000\n"),
        "invalid BSS count `x`: invalid digit found in string"
    );
    assert_eq!(read_error(b"VIVO 1\nBSS 1\nBYTES 00000000\n"), "missing bss row");
    assert_eq!(read_error(b"VIVO 1\nBSS 0\nBYTES 00000000\n"), "missing SYMBOLS header");
    assert_eq!(read_error(b"VIVO 1\nBSS 0\nSYMBOLS 0\nBYTES 00000000\n"), "missing RELOCATIONS header");
    let tables = "VIVO 1\nBSS 0\nSYMBOLS 0\nRELOCATIONS 0\n";
    assert_eq!(read_error(format!("{tables}BYTES\n").as_bytes()), "missing BYTES marker");
    assert_eq!(read_error(format!("{tables}BYTES 1 2\n").as_bytes()), "expected `BYTES <byte_count>`, found `BYTES 1 2`");
    assert_eq!(
        read_error(format!("{tables}BYTES zz\n").as_bytes()),
        "invalid byte count `zz`: invalid digit found in string"
    );
    assert_eq!(
        read_error(format!("{tables}BYTES 00000003\nab").as_bytes()),
        "byte count mismatch: expected 3, found 2"
    );
    assert!(read_error(b"VIVO 1\n\xFF\nBYTES 00000000\n").starts_with("metadata is not UTF-8: "));
}
