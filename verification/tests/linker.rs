use viv32::assembler::State;
use viv32::isa::{encode, Instruction};
use viv32::ld::{Linker, LinkerError};

fn object_bytes(filename: &str, lines: &[&str]) -> Vec<u8> {
    let mut state = State::new(filename.to_owned(), Vec::new());
    for (line_no, line) in lines.iter().enumerate() {
        state.assemble_line(line_no, line).unwrap();
    }
    let mut out = Vec::new();
    state.build_object_file().write(&mut out).unwrap();
    out
}

fn word(i: Instruction) -> u32 {
    encode(i).unwrap()
}

#[test]
fn relative_jump_is_patched_across_objects() {
    let a = object_bytes("a.s", &[".nomangle target", "nop", "jmp target"]);
    let b = object_bytes("b.s", &[".nomangle target", "nop", "target:", "halt"]);
    let mut linker = Linker::new();
    linker.add("a.vo", &a).unwrap();
    linker.add("b.vo", &b).unwrap();
    let image = linker.link().unwrap();

    // The target is 12 bytes in; the jump sits at 4 and counts from the next
    // word, so it skips one word.
    let jump = (word(Instruction::Jmp { offset: 0 }) & !0x03FF_FFFF) | 1;
    let mut expected = Vec::new();
    for w in [word(Instruction::Nop), jump, word(Instruction::Nop), word(Instruction::Halt)] {
        expected.extend_from_slice(&w.to_be_bytes());
    }
    assert_eq!(image, expected);
}

#[test]
fn absolute_address_of_bss_follows_the_sections() {
    let a = object_bytes("a.s", &[".nomangle buf", "la $1, buf", ".bss", "buf: .space 4 16"]);
    let mut linker = Linker::new();
    linker.add("a.vo", &a).unwrap();
    let image = linker.link().unwrap();

    // Eight bytes of code; the buffer is placed at address 8.
    let mut expected = Vec::new();
    expected.extend_from_slice(&word(Instruction::Lli { rd: 1, imm16: 8 }).to_be_bytes());
    expected.extend_from_slice(&word(Instruction::Lhi { rd: 1, imm16: 0 }).to_be_bytes());
    assert_eq!(image, expected);
}

#[test]
fn undeclared_label_is_reported() {
    let a = object_bytes("a.s", &[".nomangle nowhere", "jmp nowhere"]);
    let mut linker = Linker::new();
    linker.add("a.vo", &a).unwrap();
    assert_eq!(
        linker.link(),
        Err(LinkerError::UnknownLabel("Unable to link undeclared label: nowhere".to_owned()))
    );
}

#[test]
fn duplicate_symbol_across_objects_is_reported() {
    let a = object_bytes("a.s", &[".nomangle main", "main:", "halt"]);
    let mut linker = Linker::new();
    linker.add("a.vo", &a).unwrap();
    assert_eq!(linker.add("a.vo", &a), Err(LinkerError::DuplicateLabel("Duplicated Symbol: a.vo|main".to_owned())));
}

#[test]
fn malformed_object_is_an_object_error() {
    let mut linker = Linker::new();
    assert!(matches!(linker.add("junk.vo", b"not an object"), Err(LinkerError::ObjectError(_))));
}

#[test]
fn sections_are_padded_to_words() {
    let a = object_bytes("a.s", &[".data", "x: .byte 7"]);
    let b = object_bytes("b.s", &["halt"]);
    let mut linker = Linker::new();
    linker.add("a.vo", &a).unwrap();
    linker.add("b.vo", &b).unwrap();
    let image = linker.link().unwrap();
    let mut expected = vec![7, 0, 0, 0];
    expected.extend_from_slice(&word(Instruction::Halt).to_be_bytes());
    assert_eq!(image, expected);
}

#[test]
fn branch_out_of_reach_is_an_invalid_range() {
    let a = object_bytes("far.s", &["b.eq $1, $2, far", ".org 0x10000", "far:", "halt"]);
    let mut linker = Linker::new();
    linker.add("a.vo", &a).unwrap();
    assert_eq!(
        linker.link(),
        Err(LinkerError::InvalidRange("Invalid range for width 14 detected: 16383 vs -8192..8191".to_owned()))
    );
}

#[test]
fn bss_entries_are_placed_at_their_own_alignment() {
    let a = object_bytes("a.s", &[".nomangle buf", "la $1, buf", ".bss", "buf: .space 16 4"]);
    let mut linker = Linker::new();
    linker.add("a.vo", &a).unwrap();
    let image = linker.link().unwrap();

    // Eight bytes of code; the buffer goes to the next multiple of 16.
    let mut expected = Vec::new();
    expected.extend_from_slice(&word(Instruction::Lli { rd: 1, imm16: 16 }).to_be_bytes());
    expected.extend_from_slice(&word(Instruction::Lhi { rd: 1, imm16: 0 }).to_be_bytes());
    assert_eq!(image, expected);
}

#[test]
fn bss_entry_with_alignment_zero_cannot_be_placed() {
    let a = object_bytes("a.s", &[".bss", "buf: .space 0 4"]);
    let mut linker = Linker::new();
    linker.add("a.vo", &a).unwrap();
    assert_eq!(linker.link(), Err(LinkerError::InvalidRange("Invalid alignment: 0".to_owned())));
}
