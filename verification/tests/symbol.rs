use viv32::vo::{Symbol, SymbolParseError};


#[test]
fn symbol_to_string_uses_vo_format() {
    let symbol = Symbol {
        offset: 0x100,
        name: "label0".to_string(),
    };

    assert_eq!(symbol.to_string(), "00000100 label0");
}

#[test]
fn symbol_try_from_parses_vo_format() {
    let symbol = Symbol::try_from("00000100 label0").unwrap();

    assert_eq!(
        symbol,
        Symbol {
            offset: 0x100,
            name: "label0".to_string(),
        }
    );
}

#[test]
fn symbol_try_from_allows_lowercase_hex() {
    let symbol = Symbol::try_from("00000100 label0").unwrap();
    assert_eq!(symbol.offset, 0x100);
}

#[test]
fn symbol_try_from_rejects_missing_offset() {
    assert_eq!(Symbol::try_from(""), Err(SymbolParseError::MissingOffset));
}

#[test]
fn symbol_try_from_rejects_missing_name() {
    assert_eq!(
        Symbol::try_from("00000100"),
        Err(SymbolParseError::MissingName)
    );
}

#[test]
fn symbol_try_from_rejects_extra_fields() {
    assert_eq!(
        Symbol::try_from("00000100 label0 extra"),
        Err(SymbolParseError::ExtraFields)
    );
}
