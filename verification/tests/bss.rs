use viv32::vo::{Bss, BssParseError};


#[test]
fn bss_to_string_uses_vo_format() {
    let bss = Bss {
        alignment: 0x4,
        size: 0x100,
        name: "label0".to_string(),
    };

    assert_eq!(bss.to_string(), "00000004 00000100 label0");
}

#[test]
fn bss_try_from_parses_vo_format() {
    let bss = Bss::try_from("00000004 00000100 label0").unwrap();

    assert_eq!(
        bss,
        Bss {
            alignment: 0x4,
            size: 0x100,
            name: "label0".to_string(),
        }
    );
}

#[test]
fn bss_try_from_allows_lowercase_hex() {
    let bss = Bss::try_from("00000004 00000a00 label0").unwrap();
    assert_eq!(bss.size, 0xA00);
}

#[test]
fn bss_try_from_rejects_missing_alignment() {
    assert_eq!(Bss::try_from(""), Err(BssParseError::MissingAlignment));
}

#[test]
fn bss_try_from_rejects_missing_name() {
    assert_eq!(
        Bss::try_from("00000004 00000100"),
        Err(BssParseError::MissingName)
    );
}

#[test]
fn bss_try_from_rejects_extra_fields() {
    assert_eq!(
        Bss::try_from("00000004 00000100 label0 extra"),
        Err(BssParseError::ExtraFields)
    );
}
