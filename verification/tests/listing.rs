use viv32::isa::listing::listing_line;
use viv32::isa::{decode, encode, Instruction};

#[test]
fn whole_word_shows_address_text_hex_and_instruction() {
    let i = Instruction::Add { rd: 1, ra: 2, rb: 3 };
    let w = encode(i).unwrap();
    let b = w.to_be_bytes();
    let shown: String = b.iter().map(|&x| if (0x20..=0x7E).contains(&x) { x as char } else { '.' }).collect();
    assert_eq!(listing_line(0x10, &b), format!("00000010: {} {:08X} {}", shown, w, i.to_string()));
}

#[test]
fn word_text_follows_the_decoder() {
    let tail = match decode(0xFFFF_FFFF) {
        Ok(i) => i.to_string(),
        Err(_) => String::new(),
    };
    assert_eq!(listing_line(0, &[0xFF, 0xFF, 0xFF, 0xFF]), format!("00000000: .... FFFFFFFF {tail}"));
}

#[test]
fn short_chunk_shows_its_bytes_in_hex() {
    assert_eq!(listing_line(8, &[0x41, 0x0A]), "00000008: A. 410A");
}

#[test]
fn instruction_text_pads_the_mnemonic() {
    assert_eq!(Instruction::Nop.to_string(), "nop     ");
    assert_eq!(Instruction::Jr { target: 15 }.to_string(), "jr      $15");
}

#[test]
fn word_loads_and_greater_or_equal_flag_branches_show_assembler_mnemonics() {
    assert_eq!(Instruction::Lw { rd: 1, base: 2, offset: 12 }.to_string(), "lw      $1, [$2, 12]");
    assert_eq!(Instruction::Lb { rd: 1, base: 2, offset: -4 }.to_string(), "lb      $1, [$2, -4]");
    assert_eq!(Instruction::BfGe { offset: 20 }.to_string(), "bf.ge   20");
}
