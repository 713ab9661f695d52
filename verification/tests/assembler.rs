use viv32::assembler::lexer::strip_spaces_comments;
use viv32::assembler::state::LineOutcome;
use viv32::assembler::{AssemblerError, ParseError, State};
use viv32::isa::{encode, Instruction};
use viv32::vo::{ObjectFile, RelocationBase, RelocationSign};

fn standard_constants() -> Vec<(String, String)> {
    vec![
        ("%zero".to_owned(), "0".to_owned()),
        ("%fp".to_owned(), "13".to_owned()),
        ("%sp".to_owned(), "14".to_owned()),
        ("%lr".to_owned(), "15".to_owned()),
    ]
}

fn file_uuid(filename: &str) -> String {
    uuid::Uuid::new_v5(&uuid::Uuid::NAMESPACE_OID, filename.as_bytes()).simple().to_string()
}

fn assemble(filename: &str, lines: &[&str]) -> ObjectFile {
    let mut state = State::new(filename.to_owned(), standard_constants());
    for (line_no, line) in lines.iter().enumerate() {
        state.assemble_line(line_no, line).unwrap();
    }
    state.build_object_file()
}

fn words(instructions: &[Instruction]) -> Vec<u8> {
    let mut out = Vec::new();
    for i in instructions {
        out.extend_from_slice(&encode(*i).unwrap().to_be_bytes());
    }
    out
}

fn line_error(state: &mut State, line: &str) -> AssemblerError {
    state.assemble_line(7, line).unwrap_err()
}

#[test]
fn register_instructions_assemble_to_their_encodings() {
    let object = assemble("regs.s", &["add $1, $2, $3", "addi $4, $5, -2", "lw $1, [$14, 8]", "nop"]);
    assert_eq!(
        object.bytes,
        words(&[
            Instruction::Add { rd: 1, ra: 2, rb: 3 },
            Instruction::Addi { rd: 4, ra: 5, imm: 0xFFFF_FFFE },
            Instruction::Lw { rd: 1, base: 14, offset: 8 },
            Instruction::Nop,
        ])
    );
    assert!(object.symbols.is_empty());
    assert!(object.relocations.is_empty());
}

#[test]
fn constants_replace_their_names() {
    let object = assemble("consts.s", &[".const ANSWER 42", "addi %sp, %sp, ANSWER"]);
    assert_eq!(object.bytes, words(&[Instruction::Addi { rd: 14, ra: 14, imm: 42 }]));
}

#[test]
fn labels_are_mangled_with_the_file_uuid() {
    let object = assemble("prog.s", &["_start:", "nop", "loop:", "jmp loop"]);
    let prefix = file_uuid("prog.s");
    assert_eq!(prefix.len(), 32);
    assert_ne!(prefix, "prog.s");
    assert_eq!(object.symbols.len(), 2);
    assert_eq!(object.symbols[0].offset, 0);
    assert_eq!(object.symbols[0].name, format!("{prefix}__start"));
    assert_eq!(object.symbols[1].offset, 4);
    assert_eq!(object.symbols[1].name, format!("{prefix}_loop"));
    assert_eq!(object.relocations.len(), 1);
    let r = &object.relocations[0];
    assert_eq!(r.patch_offset, 4);
    assert_eq!(r.symbol, format!("{prefix}_loop"));
    assert_eq!(r.addend, -4);
    assert_eq!(r.base, RelocationBase::Relative);
    assert_eq!(r.sign, RelocationSign::Signed);
    assert_eq!((r.value_shift, r.width, r.field_shift), (2, 26, 0));
    assert_eq!(object.bytes, words(&[Instruction::Nop, Instruction::Jmp { offset: 0 }]));
}

#[test]
fn nomangle_keeps_the_label_name() {
    let object = assemble("main.s", &[".nomangle _start", "_start:", "halt"]);
    assert_eq!(object.symbols.len(), 1);
    assert_eq!(object.symbols[0].name, "_start");
}

#[test]
fn li_splits_a_word_into_lli_and_lhi() {
    let object = assemble("li.s", &["li $3, 0x12345678"]);
    assert_eq!(
        object.bytes,
        words(&[Instruction::Lli { rd: 3, imm16: 0x5678 }, Instruction::Lhi { rd: 3, imm16: 0x1234 }])
    );
}

#[test]
fn la_emits_two_absolute_relocations() {
    let object = assemble("la.s", &["la $2, message"]);
    let name = format!("{}_message", file_uuid("la.s"));
    assert_eq!(object.relocations.len(), 2);
    assert_eq!(object.relocations[0].patch_offset, 0);
    assert_eq!(object.relocations[0].symbol, name);
    assert_eq!(object.relocations[0].base, RelocationBase::Absolute);
    assert_eq!(object.relocations[0].sign, RelocationSign::Unsigned);
    assert_eq!((object.relocations[0].value_shift, object.relocations[0].width, object.relocations[0].field_shift), (0, 16, 4));
    assert_eq!(object.relocations[1].patch_offset, 4);
    assert_eq!((object.relocations[1].value_shift, object.relocations[1].width, object.relocations[1].field_shift), (16, 16, 4));
    assert_eq!(
        object.bytes,
        words(&[Instruction::Lli { rd: 2, imm16: 0 }, Instruction::Lhi { rd: 2, imm16: 0 }])
    );
}

#[test]
fn push_and_pop_move_the_stack_pointer_per_register() {
    let object = assemble("stack.s", &["push $1, $2", "pop $2"]);
    assert_eq!(
        object.bytes,
        words(&[
            Instruction::Subi { rd: 14, ra: 14, imm: 4 },
            Instruction::Sw { rs: 1, base: 14, offset: 0 },
            Instruction::Subi { rd: 14, ra: 14, imm: 4 },
            Instruction::Sw { rs: 2, base: 14, offset: 0 },
            Instruction::Lw { rd: 2, base: 14, offset: 0 },
            Instruction::Addi { rd: 14, ra: 14, imm: 4 },
        ])
    );
}

#[test]
fn branches_use_the_condition_in_their_name() {
    let object = assemble("br.s", &["b.ne $1, $2, 8", "bf.cs -4"]);
    assert_eq!(
        object.bytes,
        words(&[Instruction::BNe { ra: 1, rb: 2, offset: 8 }, Instruction::BfCs { offset: -4 }])
    );
}

#[test]
fn data_is_aligned_big_endian_and_labelled() {
    let object = assemble(
        "data.s",
        &[".data", "b: .byte -1", "w: .word 0x01020304", "s: .asciz \"Hi\\n\"", "z: .space 4 2"],
    );
    assert_eq!(object.bytes, vec![0xFF, 0, 0, 0, 1, 2, 3, 4, b'H', b'i', b'\n', 0, 0, 0]);
    let offsets: Vec<u32> = object.symbols.iter().map(|s| s.offset).collect();
    assert_eq!(offsets, vec![0, 4, 8, 12]);
}

#[test]
fn uword_of_a_label_is_relocated() {
    let object = assemble("ptr.s", &[".data", "p: .uword target"]);
    assert_eq!(object.bytes, vec![0, 0, 0, 0]);
    assert_eq!(object.relocations.len(), 1);
    assert_eq!(object.relocations[0].symbol, format!("{}_target", file_uuid("ptr.s")));
    assert_eq!(object.relocations[0].width, 32);
}

#[test]
fn bss_entries_are_sorted_by_name() {
    let object = assemble("bss.s", &[".nomangle zeta", ".nomangle alpha", ".bss", "zeta: .space 4 16", "alpha: .space 8 32"]);
    assert_eq!(object.bss.len(), 2);
    assert_eq!(object.bss[0].name, "alpha");
    assert_eq!((object.bss[0].alignment, object.bss[0].size), (8, 32));
    assert_eq!(object.bss[1].name, "zeta");
}

#[test]
fn org_pads_the_section_with_zeros() {
    let object = assemble("org.s", &[".org 8", "nop"]);
    assert_eq!(object.bytes.len(), 12);
    assert_eq!(&object.bytes[..8], &[0u8; 8]);
}

#[test]
fn bin_line_places_the_label_and_asks_for_the_file() {
    let mut state = State::new("bin.s".to_owned(), Vec::new());
    state.assemble_line(0, ".rodata").unwrap();
    state.assemble_line(1, "x: .byte 1").unwrap();
    let outcome = state.assemble_line(2, "blob: .bin image.raw").unwrap();
    assert_eq!(outcome, LineOutcome::IncludeBinary("image.raw".to_owned()));
    state.insert_data(&[9, 8, 7]);
    let object = state.build_object_file();
    assert_eq!(object.bytes, vec![1, 0, 0, 0, 9, 8, 7]);
    assert_eq!(object.symbols[1].offset, 4);
}

#[test]
fn unknown_lines_become_four_zero_bytes() {
    let mut state = State::new("u.s".to_owned(), Vec::new());
    assert_eq!(state.assemble_line(0, "frobnicate $1").unwrap(), LineOutcome::Unknown);
    assert_eq!(state.assemble_line(1, "   ; only a comment").unwrap(), LineOutcome::Assembled);
    assert_eq!(state.build_object_file().bytes, vec![0, 0, 0, 0]);
}

#[test]
fn duplicate_label_is_reported_with_file_and_line() {
    let mut state = State::new("dup.s".to_owned(), Vec::new());
    state.assemble_line(0, "here:").unwrap();
    let err = line_error(&mut state, "here:");
    assert_eq!(err.filename, "dup.s");
    assert_eq!(err.line, 7);
    assert_eq!(err.err, ParseError::DuplicateLabel("Duplicate label: 'here'".to_owned()));
}

#[test]
fn invalid_label_name_is_reported() {
    let mut state = State::new("bad.s".to_owned(), Vec::new());
    let err = line_error(&mut state, "1abc:");
    assert_eq!(err.err, ParseError::InvalidName("Invalid name: '1abc'".to_owned()));
}

#[test]
fn out_of_range_register_is_an_invalid_number() {
    let mut state = State::new("r.s".to_owned(), Vec::new());
    let err = line_error(&mut state, "add $16, $1, $2");
    assert_eq!(err.err, ParseError::InvalidNumber("Number outside of data range: 16".to_owned()));
}

#[test]
fn the_first_bad_operand_is_reported() {
    let mut state = State::new("n.s".to_owned(), Vec::new());
    let err = line_error(&mut state, "addi $1, $x, zz");
    assert_eq!(err.err, ParseError::InvalidNumber("x".to_owned()));
    let err = line_error(&mut state, "addi $1, $2, zz");
    assert_eq!(err.err, ParseError::InvalidNumber("zz".to_owned()));
    let err = line_error(&mut state, "addi $1, $2, 0x8000");
    assert_eq!(err.err, ParseError::InvalidNumber("Number outside of data range: 32768".to_owned()));
}

#[test]
fn unknown_control_register_is_an_invalid_name() {
    let mut state = State::new("c.s".to_owned(), Vec::new());
    let err = line_error(&mut state, "mrs $1, %bogus");
    assert_eq!(err.err, ParseError::InvalidName("Invalid creg: %bogus".to_owned()));
}

#[test]
fn unknown_branch_condition_is_an_invalid_instruction() {
    let mut state = State::new("b.s".to_owned(), Vec::new());
    let err = line_error(&mut state, "b.xx $1, $2, 8");
    assert_eq!(err.err, ParseError::InvalidInstruction("Instruction unknown: b.xx".to_owned()));
}

#[test]
fn unknown_data_format_is_an_invalid_instruction() {
    let mut state = State::new("d.s".to_owned(), Vec::new());
    state.assemble_line(0, ".data").unwrap();
    let err = line_error(&mut state, "v: .quad 1");
    assert_eq!(err.err, ParseError::InvalidInstruction("Invalid instruction: .quad".to_owned()));
}

#[test]
fn bad_escape_is_an_invalid_string_literal() {
    let mut state = State::new("s.s".to_owned(), Vec::new());
    state.assemble_line(0, ".data").unwrap();
    let err = line_error(&mut state, "m: .ascii \"a\\qb\"");
    assert_eq!(err.err, ParseError::InvalidStringLiteral("\\q".to_owned()));
}

#[test]
fn zero_alignment_is_a_data_alignment_error() {
    let mut state = State::new("a.s".to_owned(), Vec::new());
    state.assemble_line(0, ".data").unwrap();
    let err = line_error(&mut state, "z: .space 0 4");
    assert_eq!(err.err, ParseError::DataAlignmentError("Invalid alignment: 0".to_owned()));
}

#[test]
fn org_in_bss_is_refused() {
    let mut state = State::new("o.s".to_owned(), Vec::new());
    state.assemble_line(0, ".bss").unwrap();
    let err = line_error(&mut state, ".org 4");
    assert_eq!(err.err, ParseError::InvalidInstruction("Cannot place items in .bss section".to_owned()));
}

#[test]
fn nomangle_after_use_is_refused() {
    let mut state = State::new("n.s".to_owned(), Vec::new());
    state.assemble_line(0, "jmp later").unwrap();
    let err = line_error(&mut state, ".nomangle later");
    assert_eq!(err.err, ParseError::InvalidInstruction(".nomangle after usage: later".to_owned()));
}

#[test]
fn constant_defined_twice_is_a_duplicate() {
    let mut state = State::new("k.s".to_owned(), Vec::new());
    state.assemble_line(0, ".const A B").unwrap();
    state.assemble_line(1, ".const B 1").unwrap();
    // `A` reads as its value `B`, which is already a constant.
    let err = line_error(&mut state, ".const A 2");
    assert_eq!(err.err, ParseError::DuplicateLabel("Constant B already defined.".to_owned()));
}

#[test]
fn comments_and_spaces_are_stripped_outside_strings() {
    let line: Vec<char> = "  x: .ascii \";not a comment\" ; a comment ".chars().collect();
    let stripped: String = strip_spaces_comments(&line).unwrap().into_iter().collect();
    assert_eq!(stripped, "x: .ascii \";not a comment\"");
    let empty: Vec<char> = "   ; nothing".chars().collect();
    assert!(strip_spaces_comments(&empty).is_none());
}

#[test]
fn each_name_is_stored_once() {
    let mut state = State::new("once.s".to_owned(), vec![("N".to_owned(), "1".to_owned()), ("N".to_owned(), "2".to_owned())]);
    state.assemble_line(0, "start:").unwrap();
    state.assemble_line(1, "addi $1, $0, N").unwrap();
    assert!(matches!(state.assemble_line(2, "start:").unwrap_err().err, ParseError::DuplicateLabel(_)));
    state.assemble_line(3, ".data").unwrap();
    state.assemble_line(4, "v: .word 7").unwrap();
    assert!(matches!(state.assemble_line(5, "v: .word 8").unwrap_err().err, ParseError::DuplicateLabel(_)));
    let object = state.build_object_file();
    assert_eq!(object.symbols.len(), 2);
    assert_eq!(&object.bytes[0..4], &words(&[Instruction::Addi { rd: 1, ra: 0, imm: 2 }])[..]);
}
