use viv32::vo::{Relocation, RelocationBase, RelocationSign};

#[test]
fn relocation_round_trip() {
    let row = "00000080 _start -4 rel s 2 26 0";

    let relocation = Relocation::try_from(row).unwrap();

    assert_eq!(relocation.patch_offset, 0x80);
    assert_eq!(relocation.symbol, "_start");
    assert_eq!(relocation.addend, -4);
    assert_eq!(relocation.base, RelocationBase::Relative);
    assert_eq!(relocation.sign, RelocationSign::Signed);
    assert_eq!(relocation.value_shift, 2);
    assert_eq!(relocation.width, 26);
    assert_eq!(relocation.field_shift, 0);

    assert_eq!(relocation.to_string(), row);
}
