use viv32::vo::{Bss, ObjectFile, Relocation, RelocationBase, RelocationSign, Symbol, VoError};


fn round_trip(object: ObjectFile) {
    let mut encoded = Vec::new();
    object.write(&mut encoded).unwrap();

    let decoded = ObjectFile::read(encoded.as_slice()).unwrap();

    assert_eq!(decoded, object);
}

#[test]
fn object_file_round_trip() {
    let object = ObjectFile {
        bss: vec![Bss {
            alignment: 0x4,
            size: 0x100,
            name: "zerod".to_owned(),
        }],
        symbols: vec![Symbol {
            offset: 0x100,
            name: "message".to_owned(),
        }],
        relocations: vec![Relocation {
            patch_offset: 0x80,
            symbol: "_start".to_owned(),
            addend: -4,
            base: RelocationBase::Relative,
            sign: RelocationSign::Signed,
            value_shift: 2,
            width: 26,
            field_shift: 0,
        }],
        bytes: vec![0x00, 0x00, 0x00, 0x00, b'H', b'i', 0],
    };

    let mut encoded = Vec::new();
    object.write(&mut encoded).unwrap();

    let decoded = ObjectFile::read(encoded.as_slice()).unwrap();

    assert_eq!(decoded, object);
}

#[test]
fn empty_object_round_trips() {
    round_trip(ObjectFile {
        bss: Vec::new(),
        symbols: Vec::new(),
        relocations: Vec::new(),
        bytes: Vec::new(),
    });
}

#[test]
fn object_with_no_symbols_round_trips() {
    round_trip(ObjectFile {
        bss: Vec::new(),
        symbols: Vec::new(),
        relocations: vec![Relocation {
            patch_offset: 0x0000_0080,
            symbol: "_start".to_owned(),
            addend: -4,
            base: RelocationBase::Relative,
            sign: RelocationSign::Signed,
            value_shift: 2,
            width: 26,
            field_shift: 0,
        }],
        bytes: vec![0x00, 0x00, 0x00, 0x00],
    });
}

#[test]
fn object_with_no_relocations_round_trips() {
    round_trip(ObjectFile {
        bss: Vec::new(),
        symbols: vec![Symbol {
            offset: 0x0000_0100,
            name: "message".to_owned(),
        }],
        relocations: Vec::new(),
        bytes: vec![0x48, 0x65, 0x6C, 0x6C, 0x6F, 0x00],
    });
}

#[test]
fn arbitrary_byte_values_round_trip() {
    round_trip(ObjectFile {
        bss: vec![Bss {
            alignment: 0x2,
            size: 0x12,
            name: "array".to_owned(),
        }],
        symbols: vec![Symbol {
            offset: 0x0000_0000,
            name: "blob".to_owned(),
        }],
        relocations: Vec::new(),
        bytes: vec![
            0x00, 0x01, 0x02, 0x03, 0x0A, 0x0D, 0x20, 0x7F, 0x80, 0xFE, 0xFF, b'V', b'I', b'V',
            b'O', b'\n', b'B', b'Y', b'T', b'E', b'S', b' ',
        ],
    });
}

#[test]
fn invalid_header_is_rejected() {
    let data = b"NOPE 1\n\nSYMBOLS 0\n\nRELOCATIONS 0\n\nBYTES 00000000\n";

    let err = ObjectFile::read(&data[..]).unwrap_err();

    assert!(matches!(err, VoError::InvalidObject(_)));
}

#[test]
fn byte_count_mismatch_is_rejected() {
    let data = b"VIVO 1\n\nSYMBOLS 0\n\nRELOCATIONS 0\n\nBYTES 00000004\nABC";

    let err = ObjectFile::read(&data[..]).unwrap_err();

    assert!(matches!(err, VoError::InvalidObject(_)));
}
