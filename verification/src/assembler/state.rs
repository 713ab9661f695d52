//! The assembler's state: the section bytes, the symbol, BSS, constant and
//! name tables, and the relocations, built up line by line.
use vstd::prelude::*;
use vstd::utf8::encode_utf8;

use crate::isa::{encode, EncodeError, Instruction};
use crate::isa::encode::spec_encode;
use crate::text::{chars_equal_str, chars_less, chars_lt, chars_of, dec_digits, push_decimal, push_str, string_from_chars, words};
use crate::vo::bss::Bss;
use crate::vo::object_file::{bss_value, object_value, symbol_value, ObjectFile};
use crate::vo::relocation::{fields_of, Relocation, RelocationBase, RelocationFields, RelocationSign};
use crate::vo::symbol::Symbol;

use super::error::{AssemblerError, ParseError};
use super::forms::{
    branch_of, branch_op, flag_branch_of, flag_branch_op, form_instruction, form_of, op_immu, op_reg, starts_with_str, MAX_I16, MAX_I24,
    MAX_I28, MAX_U12, MAX_U32, MIN_I16, MIN_I24, MIN_I28,
};
use super::lexer::{
    immi, immi_message, immi_value, immu, immu_message, immu_value, is_valid_symbol_name, parse_string_literal, string_literal, valid_symbol_name,
    validate_symbol_name, LiteralFault, reg, reg_value, stripped_line, strip_spaces_comments,
};
use super::names::{lemma_source_line_keeps_names_unique, names_unique};
use super::tables::{
    find_entry, find_key, inserted, keys_of, keys_unique, lemma_find_key, lemma_inserted_keeps_keys_unique, lookup,
};

verus! {

/// The section that lines assemble into.
#[derive(Debug, Clone, Copy, PartialEq, Eq, Structural)]
pub enum Modes {
    Text,
    Data,
    RoData,
    Bss,
}

/// The assembler state as plain values.
pub ghost struct StateView {
    pub mode: Modes,
    pub bytes: Seq<u8>,
    pub symbols: Seq<(Seq<char>, (u32, Seq<char>))>,
    pub bss: Seq<(Seq<char>, (u32, u32, Seq<char>))>,
    pub relocations: Seq<RelocationFields>,
    pub constants: Seq<(Seq<char>, Seq<char>)>,
    pub mangles: Seq<(Seq<char>, Seq<char>)>,
    pub filename: Seq<char>,
}

/// Why a line failed, with the message it reports.
pub ghost enum PFault {
    Instruction(Seq<char>),
    Name(Seq<char>),
    Duplicate(Seq<char>),
    Alignment(Seq<char>),
    Literal(Seq<char>),
    Number(Seq<char>),
    Encode(EncodeError),
}

/// The error a fault is reported as.
pub open spec fn reported(f: PFault, e: ParseError) -> bool {
    match f {
        PFault::Instruction(m) => e matches ParseError::InvalidInstruction(t) && t@ == m,
        PFault::Name(m) => e matches ParseError::InvalidName(t) && t@ == m,
        PFault::Duplicate(m) => e matches ParseError::DuplicateLabel(t) && t@ == m,
        PFault::Alignment(m) => e matches ParseError::DataAlignmentError(t) && t@ == m,
        PFault::Literal(m) => e matches ParseError::InvalidStringLiteral(t) && t@ == m,
        PFault::Number(m) => e matches ParseError::InvalidNumber(t) && t@ == m,
        PFault::Encode(x) => e == ParseError::EncodeError(x),
    }
}

/// The name-based (version 5, SHA-1) UUID of `name` in the OID namespace,
/// written as 32 lower-case hex digits.
pub uninterp spec fn oid_uuid_simple(name: Seq<u8>) -> Seq<char>;

/// Computes the version-5 UUID of `name` in the OID namespace with the `uuid`
/// crate, in its simple form: 32 lower-case hex digits without hyphens.
#[verifier::external_body]
fn oid_uuid(name: &[u8]) -> (r: Vec<char>)
    ensures
        r@ == oid_uuid_simple(name@),
        r@.len() == 32,
        forall|i: int| 0 <= i < 32 ==> ('0' <= #[trigger] r@[i] <= '9' || 'a' <= r@[i] <= 'f'),
{
    uuid::Uuid::new_v5(&uuid::Uuid::NAMESPACE_OID, name).simple().to_string().chars().collect()
}

/// The name a label gets in the object: the file's UUID, `_`, the label.
pub open spec fn mangle_of(filename: Seq<char>, label: Seq<char>) -> Seq<char> {
    oid_uuid_simple(encode_utf8(filename)) + seq!['_'] + label
}

/// The state with a mangled name for `label`, unless it has one.
pub open spec fn with_mangle(s: StateView, label: Seq<char>) -> StateView {
    if lookup(s.mangles, label) is Some {
        s
    } else {
        StateView { mangles: s.mangles.push((label, mangle_of(s.filename, label))), ..s }
    }
}

/// The mangled name of a label that has one.
pub open spec fn mangled(s: StateView, label: Seq<char>) -> Seq<char> {
    lookup(s.mangles, label)->Some_0
}

/// Whether a symbol or BSS entry has the label.
pub open spec fn label_known(s: StateView, label: Seq<char>) -> bool {
    lookup(s.symbols, label) is Some || lookup(s.bss, label) is Some
}

pub open spec fn duplicate_label_fault(label: Seq<char>) -> PFault {
    PFault::Duplicate("Duplicate label: '"@ + label + "'"@)
}

pub open spec fn invalid_name_fault(label: Seq<char>) -> PFault {
    PFault::Name("Invalid name: '"@ + label + "'"@)
}

/// The checks every new label passes: not yet defined, and a symbol name.
pub open spec fn label_fault(s: StateView, label: Seq<char>) -> Option<PFault> {
    if label_known(s, label) {
        Some(duplicate_label_fault(label))
    } else if !valid_symbol_name(label) {
        Some(invalid_name_fault(label))
    } else {
        None
    }
}

/// The state with a symbol for `label` at `offset`.
pub open spec fn with_symbol(s: StateView, label: Seq<char>, offset: u32) -> StateView {
    StateView { symbols: inserted(s.symbols, label, (offset, mangled(s, label))), ..s }
}

/// The bytes padded with zeros to a multiple of `alignment`.
pub open spec fn aligned_bytes(b: Seq<u8>, alignment: nat) -> Seq<u8> {
    if b.len() % alignment != 0 {
        b + Seq::new((alignment - b.len() % alignment) as nat, |i: int| 0u8)
    } else {
        b
    }
}

/// The big-endian bytes of a word.
pub open spec fn be_bytes(w: u32) -> Seq<u8> {
    seq![(w / 0x100_0000) as u8, (w / 0x1_0000 % 0x100) as u8, (w / 0x100 % 0x100) as u8, (w % 0x100) as u8]
}

/// The state after an instruction is appended, or why it cannot be encoded.
#[verifier::opaque]
pub open spec fn appended(s: StateView, i: Instruction) -> (StateView, Result<(), PFault>) {
    match spec_encode(i) {
        Ok(w) => (StateView { bytes: s.bytes + be_bytes(w), ..s }, Ok(())),
        Err(e) => (s, Err(PFault::Encode(e))),
    }
}

/// A new constant: a symbol name not yet defined as a constant.
pub open spec fn constant_added(s: StateView, name: Seq<char>, value: Seq<char>) -> (StateView, Result<(), PFault>) {
    if !valid_symbol_name(name) {
        (s, Err(invalid_name_fault(name)))
    } else if lookup(s.constants, name) is Some {
        (s, Err(PFault::Duplicate("Constant "@ + name + " already defined."@)))
    } else {
        (StateView { constants: inserted(s.constants, name, value), ..s }, Ok(()))
    }
}

/// A label for the current position.
pub open spec fn labelled(s: StateView, label: Seq<char>) -> (StateView, Result<(), PFault>) {
    match label_fault(s, label) {
        Some(f) => (s, Err(f)),
        None => {
            let s1 = with_mangle(s, label);
            (with_symbol(s1, label, s1.bytes.len() as u32), Ok(()))
        },
    }
}

/// The bytes padded to a multiple of `alignment`; zero is refused.
pub open spec fn aligned(s: StateView, alignment: u8) -> (StateView, Result<(), PFault>) {
    if alignment == 0 {
        (s, Err(PFault::Alignment("Invalid alignment: 0"@)))
    } else {
        (StateView { bytes: aligned_bytes(s.bytes, alignment as nat), ..s }, Ok(()))
    }
}

/// A BSS entry for `label`.
pub open spec fn bss_assembled(s: StateView, label: Seq<char>, alignment: Seq<char>, size: Seq<char>) -> (StateView, Result<(), PFault>) {
    match label_fault(s, label) {
        Some(f) => (s, Err(f)),
        None => {
            let s1 = with_mangle(s, label);
            match immu_value(alignment, 0, 0) {
                None => (s1, Err(PFault::Number(immu_message(alignment)))),
                Some(a) => match immu_value(size, 0, 0) {
                    None => (s1, Err(PFault::Number(immu_message(size)))),
                    Some(z) => (StateView { bss: inserted(s1.bss, label, (a, z, mangled(s1, label))), ..s1 }, Ok(())),
                },
            }
        },
    }
}

/// A label that keeps its own name in the object.
pub open spec fn nomangled(s: StateView, label: Seq<char>) -> (StateView, Result<(), PFault>) {
    match label_fault(s, label) {
        Some(f) => (s, Err(f)),
        None => if lookup(s.mangles, label) is Some {
            (s, Err(PFault::Instruction(".nomangle after usage: "@ + label)))
        } else {
            (StateView { mangles: s.mangles.push((label, label)), ..s }, Ok(()))
        },
    }
}

/// The bytes extended with zeros up to `location`.
pub open spec fn org_placed(s: StateView, location: Seq<char>) -> (StateView, Result<(), PFault>) {
    if s.mode == Modes::Bss {
        (s, Err(PFault::Instruction("Cannot place items in .bss section"@)))
    } else {
        match immu_value(location, 0, 0) {
            None => (s, Err(PFault::Number(immu_message(location)))),
            Some(size) => if s.bytes.len() < size {
                (StateView { bytes: s.bytes + Seq::new((size - s.bytes.len()) as nat, |i: int| 0u8), ..s }, Ok(()))
            } else {
                (s, Ok(()))
            },
        }
    }
}

/// A relocation for a symbol operand: its fields but the symbol's name.
pub ghost struct RelocationTemplate {
    pub addend: i32,
    pub base: RelocationBase,
    pub sign: RelocationSign,
    pub value_shift: u8,
    pub width: u8,
    pub field_shift: u8,
}

/// A jump, branch or trap operand: a symbol, which becomes a relocation at
/// the current position and the value zero, or a number in `min..=max`.
pub open spec fn target_operand(s: StateView, text: Seq<char>, min: int, max: int, t: RelocationTemplate) -> (StateView, Result<i32, PFault>) {
    if valid_symbol_name(text) {
        let s1 = with_mangle(s, text);
        let rel = (s.bytes.len() as u32, mangled(s1, text), t.addend, t.base, t.sign, t.value_shift, t.width, t.field_shift);
        (StateView { relocations: s1.relocations.push(rel), ..s1 }, Ok(0))
    } else {
        match immi_value(text, min, max) {
            Some(v) => (s, Ok(v)),
            None => (s, Err(PFault::Number(immi_message(text)))),
        }
    }
}

/// How a character of the part before a string literal reads: separators
/// become spaces and a colon stands alone.
pub open spec fn normalized_char(c: char) -> Seq<char> {
    if c == ',' || c == '$' || c == '[' || c == ']' {
        seq![' ']
    } else if c == ':' {
        seq![' ', ':', ' ']
    } else {
        seq![c]
    }
}

pub open spec fn normalized(p: Seq<char>) -> Seq<char>
    decreases p.len(),
{
    if p.len() == 0 {
        Seq::empty()
    } else {
        normalized(p.drop_last()) + normalized_char(p.last())
    }
}

/// The position of the first double quote.
pub open spec fn quote_at(line: Seq<char>, i: int) -> Option<int>
    decreases line.len() - i,
{
    if i < 0 || i >= line.len() {
        None
    } else if line[i] == '"' {
        Some(i)
    } else {
        quote_at(line, i + 1)
    }
}

/// A word, or the value of the constant it names.
pub open spec fn resolved(constants: Seq<(Seq<char>, Seq<char>)>, w: Seq<char>) -> Seq<char> {
    match lookup(constants, w) {
        Some(v) => v,
        None => w,
    }
}

/// The tokens of a line: the words before the first double quote, constants
/// replaced by their values, then the rest of the line from the quote on.
pub open spec fn tokens(constants: Seq<(Seq<char>, Seq<char>)>, line: Seq<char>) -> Seq<Seq<char>> {
    match quote_at(line, 0) {
        Some(i) => words(normalized(line.take(i))).map_values(|w: Seq<char>| resolved(constants, w)).push(
            crate::text::trim(line.skip(i)),
        ),
        None => words(normalized(line)).map_values(|w: Seq<char>| resolved(constants, w)),
    }
}

/// A value at a width of 8, 16 or 32 bits, big-endian.
pub open spec fn sized_bytes(v: u32, bits: u8) -> Seq<u8> {
    if bits == 8 {
        seq![(v % 0x100) as u8]
    } else if bits == 16 {
        seq![(v / 0x100 % 0x100) as u8, (v % 0x100) as u8]
    } else {
        be_bytes(v)
    }
}

/// Half the range of a signed value of `bits` bits: its lowest value negated.
pub open spec fn signed_half(bits: u8) -> int {
    if bits == 8 {
        0x80
    } else if bits == 16 {
        0x8000
    } else {
        0x8000_0000
    }
}

/// The highest unsigned value of `bits` bits.
pub open spec fn unsigned_max(bits: u8) -> int {
    if bits == 8 {
        0xFF
    } else if bits == 16 {
        0xFFFF
    } else {
        0xFFFF_FFFF
    }
}

/// The state with `data` appended and a symbol, named `name`, for `label`
/// where the data starts.
pub open spec fn placed(s: StateView, label: Seq<char>, name: Seq<char>, data: Seq<u8>) -> StateView {
    StateView { bytes: s.bytes + data, symbols: inserted(s.symbols, label, (s.bytes.len() as u32, name)), ..s }
}

/// A signed value of `bits` bits, aligned to its size.
pub open spec fn signed_appended(s: StateView, label: Seq<char>, name: Seq<char>, data: Seq<char>, bits: u8) -> (StateView, Result<(), PFault>) {
    let s1 = aligned(s, bits / 8).0;
    match immi_value(data, -signed_half(bits), signed_half(bits) - 1) {
        None => (s1, Err(PFault::Number(immi_message(data)))),
        Some(v) => (placed(s1, label, name, sized_bytes(v as u32, bits)), Ok(())),
    }
}

/// An unsigned value of `bits` bits, aligned to its size; a symbol name
/// stands for its address, zero here and a 32-bit absolute relocation.
pub open spec fn unsigned_appended(s: StateView, label: Seq<char>, name: Seq<char>, data: Seq<char>, bits: u8) -> (StateView, Result<(), PFault>) {
    let s1 = aligned(s, bits / 8).0;
    if valid_symbol_name(data) {
        let s2 = with_mangle(s1, data);
        let rel = (s1.bytes.len() as u32, mangled(s2, data), 0i32, RelocationBase::Absolute, RelocationSign::Unsigned, 0u8, 32u8, 0u8);
        (placed(StateView { relocations: s2.relocations.push(rel), ..s2 }, label, name, sized_bytes(0, bits)), Ok(()))
    } else {
        match immu_value(data, 0, unsigned_max(bits)) {
            None => (s1, Err(PFault::Number(immu_message(data)))),
            Some(v) => (placed(s1, label, name, sized_bytes(v, bits)), Ok(())),
        }
    }
}

/// The fault for data that would take the section past 32-bit offsets.
pub open spec fn too_large(target: nat) -> PFault {
    PFault::Alignment("Calculated data size is too large: "@ + dec_digits(target))
}

/// The bytes of a string literal, with a zero after them when asked for.
pub open spec fn string_appended(s: StateView, label: Seq<char>, name: Seq<char>, data: Seq<char>, zero_term: bool) -> (StateView, Result<(), PFault>) {
    match string_literal(data) {
        Err(LiteralFault::Unquoted) => (s, Err(PFault::Literal(data))),
        Err(LiteralFault::Escape(m)) => (s, Err(PFault::Literal(m))),
        Ok(b) => {
            let content = if zero_term { b.push(0u8) } else { b };
            if s.bytes.len() + content.len() > u32::MAX {
                (s, Err(too_large(s.bytes.len() + content.len())))
            } else {
                (placed(s, label, name, content), Ok(()))
            }
        },
    }
}

/// Zeros: the alignment, then the size.
pub open spec fn space_appended(s: StateView, label: Seq<char>, name: Seq<char>, data: Seq<char>, data2: Seq<char>) -> (StateView, Result<(), PFault>) {
    match immu_value(data, 0, 0) {
        None => (s, Err(PFault::Number(immu_message(data)))),
        Some(a) => {
            let al = aligned(s, a as u8);
            match al.1 {
                Err(f) => (al.0, Err(f)),
                Ok(_) => match immu_value(data2, 0, 0) {
                    None => (al.0, Err(PFault::Number(immu_message(data2)))),
                    Some(z) => if al.0.bytes.len() + z > u32::MAX {
                        (al.0, Err(too_large((al.0.bytes.len() + z) as nat)))
                    } else {
                        (placed(al.0, label, name, Seq::new(z as nat, |i: int| 0u8)), Ok(()))
                    },
                },
            }
        },
    }
}

/// A labelled datum of the given format.
pub open spec fn data_assembled(s: StateView, label: Seq<char>, format: Seq<char>, data: Seq<char>, data2: Seq<char>) -> (StateView, Result<(), PFault>) {
    match label_fault(s, label) {
        Some(f) => (s, Err(f)),
        None => {
            let s1 = with_mangle(s, label);
            let name = mangled(s1, label);
            if format == ".byte"@ {
                signed_appended(s1, label, name, data, 8)
            } else if format == ".ubyte"@ {
                unsigned_appended(s1, label, name, data, 8)
            } else if format == ".half"@ || format == ".uhalf"@ {
                signed_appended(s1, label, name, data, 16)
            } else if format == ".word"@ {
                signed_appended(s1, label, name, data, 32)
            } else if format == ".uword"@ {
                unsigned_appended(s1, label, name, data, 32)
            } else if format == ".ascii"@ {
                string_appended(s1, label, name, data, false)
            } else if format == ".asciz"@ {
                string_appended(s1, label, name, data, true)
            } else if format == ".space"@ {
                space_appended(s1, label, name, data, data2)
            } else {
                (s1, Err(PFault::Instruction("Invalid instruction: "@ + format)))
            }
        },
    }
}

/// What became of a line, as plain values.
pub ghost enum Outcome {
    Assembled,
    Include(Seq<char>),
    Unknown,
}

/// What became of a line.
#[derive(Debug, Clone, PartialEq, Eq)]
pub enum LineOutcome {
    /// The line was assembled, or held nothing.
    Assembled,
    /// A `.bin` line: the label is placed, word-aligned; the named file's
    /// bytes are to follow it (see `State::insert_data`).
    IncludeBinary(String),
    /// A line of no known form: four zero bytes stand in its place.
    Unknown,
}

/// The result of a line, as the outcome or the error it reports.
pub open spec fn outcome_reported(g: Result<Outcome, PFault>, r: Result<LineOutcome, ParseError>) -> bool {
    match g {
        Ok(Outcome::Assembled) => r matches Ok(LineOutcome::Assembled),
        Ok(Outcome::Include(n)) => r matches Ok(LineOutcome::IncludeBinary(x)) && x@ == n,
        Ok(Outcome::Unknown) => r matches Ok(LineOutcome::Unknown),
        Err(f) => r matches Err(e) && reported(f, e),
    }
}

/// A step that produced nothing, as a line's outcome.
pub open spec fn lift(r: (StateView, Result<(), PFault>)) -> (StateView, Result<Outcome, PFault>) {
    (
        r.0,
        match r.1 {
            Ok(_) => Ok(Outcome::Assembled),
            Err(f) => Err(f),
        },
    )
}

/// A second instruction appended after a step that succeeded.
pub open spec fn then_append(r: (StateView, Result<(), PFault>), i: Instruction) -> (StateView, Result<(), PFault>) {
    match r.1 {
        Err(f) => (r.0, Err(f)),
        Ok(_) => appended(r.0, i),
    }
}

/// A line of no known form: four zero bytes.
pub open spec fn unknown_line(s: StateView) -> (StateView, Result<Outcome, PFault>) {
    (StateView { bytes: s.bytes + seq![0u8, 0u8, 0u8, 0u8], ..s }, Ok(Outcome::Unknown))
}

/// The relocation of a software trap number.
pub open spec fn trap_template() -> RelocationTemplate {
    RelocationTemplate { addend: 0, base: RelocationBase::Relative, sign: RelocationSign::Signed, value_shift: 2, width: 12, field_shift: 0 }
}

/// The relocation of a jump or call offset.
pub open spec fn jump_template() -> RelocationTemplate {
    RelocationTemplate { addend: -4i32, base: RelocationBase::Relative, sign: RelocationSign::Signed, value_shift: 2, width: 26, field_shift: 0 }
}

/// The relocation of a register-compare branch offset.
pub open spec fn branch_template() -> RelocationTemplate {
    RelocationTemplate { addend: -4i32, base: RelocationBase::Relative, sign: RelocationSign::Signed, value_shift: 2, width: 14, field_shift: 8 }
}

/// The relocation of a flag-branch offset.
pub open spec fn flag_branch_template() -> RelocationTemplate {
    RelocationTemplate { addend: -4i32, base: RelocationBase::Relative, sign: RelocationSign::Signed, value_shift: 2, width: 22, field_shift: 0 }
}

/// An instruction with an operand read first; the operand's fault stops it.
pub open spec fn with_operand(o: (StateView, Result<i32, PFault>), make: spec_fn(i32) -> Instruction) -> (StateView, Result<(), PFault>) {
    match o.1 {
        Err(f) => (o.0, Err(f)),
        Ok(v) => appended(o.0, make(v)),
    }
}

/// `la`: the two halves of a label's address, loaded by `lli` and `lhi`
/// with zero and each patched by an absolute relocation.
#[verifier::opaque]
pub open spec fn address_loaded(s: StateView, rd: u8, label: Seq<char>) -> (StateView, Result<(), PFault>) {
    let s1 = with_mangle(s, label);
    let name = mangled(s1, label);
    let low = (s1.bytes.len() as u32, name, 0i32, RelocationBase::Absolute, RelocationSign::Unsigned, 0u8, 16u8, 4u8);
    let a = appended(StateView { relocations: s1.relocations.push(low), ..s1 }, Instruction::Lli { rd, imm16: 0 });
    match a.1 {
        Err(f) => (a.0, Err(f)),
        Ok(_) => {
            let high = (a.0.bytes.len() as u32, name, 0i32, RelocationBase::Absolute, RelocationSign::Unsigned, 16u8, 16u8, 4u8);
            appended(StateView { relocations: a.0.relocations.push(high), ..a.0 }, Instruction::Lhi { rd, imm16: 0 })
        },
    }
}

/// `push` and `pop`: for each register in order, the stack pointer (r14)
/// moves by a word and the register is stored or loaded.
pub open spec fn stacked(s: StateView, regs: Seq<Seq<char>>, pop: bool) -> (StateView, Result<(), PFault>)
    decreases regs.len(),
{
    if regs.len() == 0 {
        (s, Ok(()))
    } else {
        match reg_value(regs[0]) {
            None => (s, Err(PFault::Number(immu_message(regs[0])))),
            Some(r) => {
                let a = if pop {
                    then_append(appended(s, Instruction::Lw { rd: r, base: 14, offset: 0 }), Instruction::Addi { rd: 14, ra: 14, imm: 4 })
                } else {
                    then_append(appended(s, Instruction::Subi { rd: 14, ra: 14, imm: 4 }), Instruction::Sw { rs: r, base: 14, offset: 0 })
                };
                match a.1 {
                    Err(f) => (a.0, Err(f)),
                    Ok(_) => stacked(a.0, regs.drop_first(), pop),
                }
            },
        }
    }
}

/// `trap`, `jmp` and `call`, whose operand may be a symbol.
#[verifier::opaque]
pub open spec fn target_line(s: StateView, op: Seq<char>, x: Seq<char>) -> (StateView, Result<(), PFault>) {
    if op == "trap"@ {
        with_operand(target_operand(s, x, 0, MAX_U12 as int, trap_template()), |v: i32| Instruction::SoftwareTrap { imm: v as u32 })
    } else if op == "jmp"@ {
        with_operand(target_operand(s, x, MIN_I28 as int, MAX_I28 as int, jump_template()), |v: i32| Instruction::Jmp { offset: v })
    } else {
        with_operand(target_operand(s, x, MIN_I28 as int, MAX_I28 as int, jump_template()), |v: i32| Instruction::Call { offset: v })
    }
}

/// A register-compare branch: two registers, then the target.
#[verifier::opaque]
pub open spec fn branch_line(s: StateView, t: Seq<Seq<char>>) -> (StateView, Result<(), PFault>) {
    match (op_reg(t[1]), op_reg(t[2])) {
        (Ok(ra), Ok(rb)) => {
            let o = target_operand(s, t[3], MIN_I16 as int, MAX_I16 as int, branch_template());
            match o.1 {
                Err(f) => (o.0, Err(f)),
                Ok(v) => match branch_op(t[0], ra, rb, v) {
                    Some(i) => appended(o.0, i),
                    None => (o.0, Err(PFault::Instruction("Instruction unknown: "@ + t[0]))),
                },
            }
        },
        (Err(f), _) => (s, Err(f)),
        (_, Err(f)) => (s, Err(f)),
    }
}

/// A flag branch: the target.
#[verifier::opaque]
pub open spec fn flag_branch_line(s: StateView, op: Seq<char>, x: Seq<char>) -> (StateView, Result<(), PFault>) {
    let o = target_operand(s, x, MIN_I24 as int, MAX_I24 as int, flag_branch_template());
    match o.1 {
        Err(f) => (o.0, Err(f)),
        Ok(v) => match flag_branch_op(op, v) {
            Some(i) => appended(o.0, i),
            None => (o.0, Err(PFault::Instruction("Instruction unknown: "@ + op))),
        },
    }
}

/// `li`: a 32-bit constant loaded by `lli` and `lhi`.
#[verifier::opaque]
pub open spec fn constant_loaded(s: StateView, x: Seq<char>, y: Seq<char>) -> (StateView, Result<(), PFault>) {
    match (op_reg(x), op_immu(y, 0, MAX_U32 as int)) {
        (Ok(rd), Ok(v)) => then_append(
            appended(s, Instruction::Lli { rd, imm16: (v % 0x1_0000) as u16 }),
            Instruction::Lhi { rd, imm16: (v / 0x1_0000) as u16 },
        ),
        (Err(f), _) => (s, Err(f)),
        (_, Err(f)) => (s, Err(f)),
    }
}

/// A line in the text section.
pub open spec fn text_assembled(s: StateView, t: Seq<Seq<char>>) -> (StateView, Result<Outcome, PFault>) {
    let n = t.len();
    match form_instruction(t) {
        Some(Ok(i)) => lift(appended(s, i)),
        Some(Err(f)) => (s, Err(f)),
        None => if n == 2 && (t[0] == "trap"@ || t[0] == "jmp"@ || t[0] == "call"@) {
            lift(target_line(s, t[0], t[1]))
        } else if n == 4 && "b."@.is_prefix_of(t[0]) {
            lift(branch_line(s, t))
        } else if n == 2 && "bf."@.is_prefix_of(t[0]) {
            lift(flag_branch_line(s, t[0], t[1]))
        } else if n == 3 && t[0] == "li"@ {
            lift(constant_loaded(s, t[1], t[2]))
        } else if n == 3 && t[0] == "la"@ {
            match reg_value(t[1]) {
                None => (s, Err(PFault::Number(immu_message(t[1])))),
                Some(rd) => lift(address_loaded(s, rd, t[2])),
            }
        } else if n >= 1 && t[0] == "push"@ {
            lift(stacked(s, t.skip(1), false))
        } else if n >= 1 && t[0] == "pop"@ {
            lift(stacked(s, t.skip(1), true))
        } else {
            unknown_line(s)
        },
    }
}

/// A line's tokens: section directives, `.const`, `.org` and `.nomangle` in
/// any section; labelled data, BSS entries and included files in their
/// sections; labels and instructions in the text section. Any other line is
/// unknown.
pub open spec fn line_assembled(s: StateView, t: Seq<Seq<char>>) -> (StateView, Result<Outcome, PFault>) {
    let n = t.len();
    let data_section = s.mode == Modes::Data || s.mode == Modes::RoData;
    if n >= 1 && t[0] == ".text"@ {
        (StateView { mode: Modes::Text, ..s }, Ok(Outcome::Assembled))
    } else if n >= 1 && t[0] == ".data"@ {
        (StateView { mode: Modes::Data, ..s }, Ok(Outcome::Assembled))
    } else if n >= 1 && t[0] == ".rodata"@ {
        (StateView { mode: Modes::RoData, ..s }, Ok(Outcome::Assembled))
    } else if n >= 1 && t[0] == ".bss"@ {
        (StateView { mode: Modes::Bss, ..s }, Ok(Outcome::Assembled))
    } else if n == 3 && t[0] == ".const"@ {
        lift(constant_added(s, t[1], t[2]))
    } else if n == 2 && t[0] == ".org"@ {
        lift(org_placed(s, t[1]))
    } else if n == 2 && t[0] == ".nomangle"@ {
        lift(nomangled(s, t[1]))
    } else if s.mode == Modes::Bss && n == 5 && t[1] == ":"@ && t[2] == ".space"@ {
        lift(bss_assembled(s, t[0], t[3], t[4]))
    } else if data_section && n == 5 && t[1] == ":"@ {
        lift(data_assembled(s, t[0], t[2], t[3], t[4]))
    } else if data_section && n == 4 && t[1] == ":"@ && t[2] == ".bin"@ {
        let l = labelled(aligned(s, 4).0, t[0]);
        match l.1 {
            Err(f) => (l.0, Err(f)),
            Ok(_) => (l.0, Ok(Outcome::Include(t[3]))),
        }
    } else if data_section && n == 4 && t[1] == ":"@ {
        lift(data_assembled(s, t[0], t[2], t[3], "0"@))
    } else if s.mode == Modes::Text && n == 2 && t[1] == ":"@ {
        lift(labelled(s, t[0]))
    } else if s.mode == Modes::Text {
        text_assembled(s, t)
    } else {
        unknown_line(s)
    }
}

/// A source line: nothing when it holds only whitespace and a comment,
/// else its tokens.
pub open spec fn source_line(s: StateView, line: Seq<char>) -> (StateView, Result<Outcome, PFault>) {
    match stripped_line(line) {
        None => (s, Ok(Outcome::Assembled)),
        Some(l) => line_assembled(s, tokens(s.constants, l)),
    }
}

/// The character views of tokens.
pub open spec fn token_views(t: Seq<Vec<char>>) -> Seq<Seq<char>> {
    t.map_values(|v: Vec<char>| v@)
}

/// The assembler.
pub struct State {
    mode: Modes,
    bytes: Vec<u8>,
    symbols: Vec<(Vec<char>, Symbol)>,
    bss: Vec<(Vec<char>, Bss)>,
    relocations: Vec<Relocation>,
    constants: Vec<(Vec<char>, Vec<char>)>,
    mangles: Vec<(Vec<char>, Vec<char>)>,
    filename: String,
}

pub open spec fn symbol_entry(e: (Vec<char>, Symbol)) -> (Seq<char>, (u32, Seq<char>)) {
    (e.0@, (e.1.offset, e.1.name@))
}

pub open spec fn bss_entry(e: (Vec<char>, Bss)) -> (Seq<char>, (u32, u32, Seq<char>)) {
    (e.0@, (e.1.alignment, e.1.size, e.1.name@))
}

pub open spec fn text_entry(e: (Vec<char>, Vec<char>)) -> (Seq<char>, Seq<char>) {
    (e.0@, e.1@)
}

impl View for State {
    type V = StateView;

    closed spec fn view(&self) -> StateView {
        StateView {
            mode: self.mode,
            bytes: self.bytes@,
            symbols: self.symbols@.map_values(|e: (Vec<char>, Symbol)| symbol_entry(e)),
            bss: self.bss@.map_values(|e: (Vec<char>, Bss)| bss_entry(e)),
            relocations: self.relocations@.map_values(|r: Relocation| fields_of(r)),
            constants: self.constants@.map_values(|e: (Vec<char>, Vec<char>)| text_entry(e)),
            mangles: self.mangles@.map_values(|e: (Vec<char>, Vec<char>)| text_entry(e)),
            filename: self.filename@,
        }
    }
}

impl State {
    proof fn lemma_keys(&self)
        ensures
            keys_of(self@.symbols) == self.symbols@.map_values(|e: (Vec<char>, Symbol)| e.0@),
            keys_of(self@.bss) == self.bss@.map_values(|e: (Vec<char>, Bss)| e.0@),
            keys_of(self@.constants) == self.constants@.map_values(|e: (Vec<char>, Vec<char>)| e.0@),
            keys_of(self@.mangles) == self.mangles@.map_values(|e: (Vec<char>, Vec<char>)| e.0@),
    {
        assert(keys_of(self@.symbols) =~= self.symbols@.map_values(|e: (Vec<char>, Symbol)| e.0@));
        assert(keys_of(self@.bss) =~= self.bss@.map_values(|e: (Vec<char>, Bss)| e.0@));
        assert(keys_of(self@.constants) =~= self.constants@.map_values(|e: (Vec<char>, Vec<char>)| e.0@));
        assert(keys_of(self@.mangles) =~= self.mangles@.map_values(|e: (Vec<char>, Vec<char>)| e.0@));
    }

    /// A fresh assembler for the file `filename`, with the constants given in
    /// order; a later constant with the same name replaces an earlier one.
    pub fn new(filename: String, constants: Vec<(String, String)>) -> (s: Self)
        ensures
            s@.mode == Modes::Text,
            s@.bytes == Seq::<u8>::empty(),
            s@.symbols == Seq::<(Seq<char>, (u32, Seq<char>))>::empty(),
            s@.bss == Seq::<(Seq<char>, (u32, u32, Seq<char>))>::empty(),
            s@.relocations == Seq::<RelocationFields>::empty(),
            s@.mangles == Seq::<(Seq<char>, Seq<char>)>::empty(),
            s@.filename == filename@,
            forall|k: Seq<char>| #[trigger] lookup(s@.constants, k) == last_constant(constants@, k),
            names_unique(s@),
    {
        let mut s = Self {
            mode: Modes::Text,
            bytes: Vec::new(),
            symbols: Vec::new(),
            bss: Vec::new(),
            relocations: Vec::new(),
            constants: Vec::new(),
            mangles: Vec::new(),
            filename,
        };
        assert(s@.symbols =~= Seq::empty());
        assert(s@.bss =~= Seq::empty());
        assert(s@.relocations =~= Seq::empty());
        assert(s@.mangles =~= Seq::empty());
        assert(keys_of(s@.constants) =~= Seq::empty());
        assert(keys_of(s@.symbols) =~= Seq::empty());
        assert(keys_of(s@.bss) =~= Seq::empty());
        assert(keys_of(s@.mangles) =~= Seq::empty());
        let mut i: usize = 0;
        while i < constants.len()
            invariant
                i <= constants@.len(),
                s@.mode == Modes::Text,
                s@.bytes == Seq::<u8>::empty(),
                s@.symbols == Seq::<(Seq<char>, (u32, Seq<char>))>::empty(),
                s@.bss == Seq::<(Seq<char>, (u32, u32, Seq<char>))>::empty(),
                s@.relocations == Seq::<RelocationFields>::empty(),
                s@.mangles == Seq::<(Seq<char>, Seq<char>)>::empty(),
                s@.filename == filename@,
                forall|k: Seq<char>| #[trigger] lookup(s@.constants, k) == last_constant(constants@.take(i as int), k),
                keys_unique(keys_of(s@.constants)),
            decreases constants@.len() - i,
        {
            let name = chars_of(constants[i].0.as_str());
            let value = chars_of(constants[i].1.as_str());
            let ghost before = s@;
            s.insert_constant(name, value);
            proof {
                assert(constants@.take(i + 1).drop_last() =~= constants@.take(i as int));
                lemma_inserted_keeps_keys_unique(before.constants, constants@[i as int].0@, constants@[i as int].1@);
                assert forall|k: Seq<char>| #[trigger] lookup(s@.constants, k) == last_constant(constants@.take(i + 1), k) by {
                    lemma_lookup_inserted(before.constants, constants@[i as int].0@, constants@[i as int].1@, k);
                }
            }
            i += 1;
        }
        assert(constants@.take(constants@.len() as int) =~= constants@);
        s
    }

    fn insert_constant(&mut self, name: Vec<char>, value: Vec<char>)
        ensures
            final(self)@ == (StateView { constants: inserted(old(self)@.constants, name@, value@), ..old(self)@ }),
    {
        proof {
            self.lemma_keys();
        }
        let ghost before = self@;
        match find_entry(&self.constants, name.as_slice()) {
            Some(i) => {
                let ghost nv = name@;
                let ghost vv = value@;
                assert(find_key(keys_of(before.constants), nv) == Some(i as int));
                self.constants.set(i, (name, value));
                assert(self@.constants =~= before.constants.update(i as int, (nv, vv)));
                assert(self@.constants == inserted(before.constants, nv, vv));
            },
            None => {
                assert(find_key(keys_of(before.constants), name@) is None);
                let ghost nv = name@;
                let ghost vv = value@;
                self.constants.push((name, value));
                assert(self@.constants =~= before.constants.push((nv, vv)));
                assert(self@.constants == inserted(before.constants, nv, vv));
            },
        }
    }

    fn mangle_name(&mut self, label: &[char])
        ensures
            final(self)@ == with_mangle(old(self)@, label@),
            lookup(final(self)@.mangles, label@) is Some,
    {
        proof {
            self.lemma_keys();
        }
        if find_entry(&self.mangles, label).is_some() {
            return;
        }
        let uuid = oid_uuid(self.filename.as_str().as_bytes());
        let mut mangled: Vec<char> = uuid;
        mangled.push('_');
        mangled.extend_from_slice(label);
        assert(mangled@ =~= mangle_of(self@.filename, label@));
        let ghost before = self@;
        let key = vstd::slice::slice_to_vec(label);
        let ghost mv = mangled@;
        self.mangles.push((key, mangled));
        assert(self@.mangles =~= before.mangles.push((label@, mv)));
        proof {
            lemma_lookup_inserted(before.mangles, label@, mv, label@);
            assert(inserted(before.mangles, label@, mv) == before.mangles.push((label@, mv)));
        }
    }

    /// The mangled name of a label that has one.
    fn mangled_name(&self, label: &[char]) -> (r: Vec<char>)
        requires
            lookup(self@.mangles, label@) is Some,
        ensures
            r@ == mangled(self@, label@),
    {
        proof {
            self.lemma_keys();
        }
        match find_entry(&self.mangles, label) {
            Some(i) => vstd::slice::slice_to_vec(self.mangles[i].1.as_slice()),
            None => Vec::new(),
        }
    }

    /// Whether a symbol or BSS entry already has the label.
    fn check_label_already_known(&self, label: &[char]) -> (r: Result<(), ParseError>)
        ensures
            r is Ok <==> !label_known(self@, label@),
            r matches Err(e) ==> reported(duplicate_label_fault(label@), e),
    {
        proof {
            self.lemma_keys();
        }
        if find_entry(&self.symbols, label).is_some() || find_entry(&self.bss, label).is_some() {
            let mut m = chars_of("Duplicate label: '");
            m.extend_from_slice(label);
            push_str(&mut m, "'");
            assert(m@ =~= "Duplicate label: '"@ + label@ + "'"@);
            return Err(ParseError::DuplicateLabel(string_from_chars(m.as_slice())));
        }
        Ok(())
    }

    /// Checks that a new label is not yet defined and is a symbol name.
    fn check_new_label(&self, label: &[char]) -> (r: Result<(), ParseError>)
        ensures
            match label_fault(self@, label@) {
                Some(f) => r matches Err(e) && reported(f, e),
                None => r is Ok,
            },
    {
        self.check_label_already_known(label)?;
        validate_symbol_name(label)?;
        Ok(())
    }

    fn add_constant(&mut self, name: &[char], value: &[char]) -> (r: Result<(), ParseError>)
        ensures
            final(self)@ == constant_added(old(self)@, name@, value@).0,
            match constant_added(old(self)@, name@, value@).1 {
                Ok(_) => r is Ok,
                Err(f) => r matches Err(e) && reported(f, e),
            },
    {
        validate_symbol_name(name)?;
        proof {
            self.lemma_keys();
        }
        if find_entry(&self.constants, name).is_some() {
            let mut m = chars_of("Constant ");
            m.extend_from_slice(name);
            push_str(&mut m, " already defined.");
            assert(m@ =~= "Constant "@ + name@ + " already defined."@);
            return Err(ParseError::DuplicateLabel(string_from_chars(m.as_slice())));
        }
        self.insert_constant(vstd::slice::slice_to_vec(name), vstd::slice::slice_to_vec(value));
        Ok(())
    }

    fn assemble_label(&mut self, label: &[char]) -> (r: Result<(), ParseError>)
        ensures
            final(self)@ == labelled(old(self)@, label@).0,
            match labelled(old(self)@, label@).1 {
                Ok(_) => r is Ok,
                Err(f) => r matches Err(e) && reported(f, e),
            },
    {
        self.check_new_label(label)?;
        self.mangle_name(label);
        let mangled = self.mangled_name(label);
        let offset = self.bytes.len() as u32;
        self.insert_symbol(label, Symbol { offset, name: string_from_chars(mangled.as_slice()) });
        Ok(())
    }

    fn insert_symbol(&mut self, label: &[char], symbol: Symbol)
        ensures
            final(self)@ == (StateView { symbols: inserted(old(self)@.symbols, label@, (symbol.offset, symbol.name@)), ..old(self)@ }),
    {
        proof {
            self.lemma_keys();
        }
        let ghost before = self@;
        let ghost sv = (symbol.offset, symbol.name@);
        let key = vstd::slice::slice_to_vec(label);
        match find_entry(&self.symbols, label) {
            Some(i) => {
                self.symbols.set(i, (key, symbol));
                assert(self@.symbols =~= before.symbols.update(i as int, (label@, sv)));
            },
            None => {
                self.symbols.push((key, symbol));
                assert(self@.symbols =~= before.symbols.push((label@, sv)));
            },
        }
    }

    fn insert_bss(&mut self, label: &[char], entry: Bss)
        ensures
            final(self)@ == (StateView {
                bss: inserted(old(self)@.bss, label@, (entry.alignment, entry.size, entry.name@)),
                ..old(self)@
            }),
    {
        proof {
            self.lemma_keys();
        }
        let ghost before = self@;
        let ghost bv = (entry.alignment, entry.size, entry.name@);
        let key = vstd::slice::slice_to_vec(label);
        match find_entry(&self.bss, label) {
            Some(i) => {
                self.bss.set(i, (key, entry));
                assert(self@.bss =~= before.bss.update(i as int, (label@, bv)));
            },
            None => {
                self.bss.push((key, entry));
                assert(self@.bss =~= before.bss.push((label@, bv)));
            },
        }
    }

    /// Pads the bytes with zeros to a multiple of `alignment`.
    fn ensure_alignment(&mut self, alignment: u8) -> (r: Result<(), ParseError>)
        ensures
            final(self)@ == aligned(old(self)@, alignment).0,
            match aligned(old(self)@, alignment).1 {
                Ok(_) => r is Ok,
                Err(f) => r matches Err(e) && reported(f, e),
            },
    {
        if alignment == 0 {
            let m = chars_of("Invalid alignment: 0");
            return Err(ParseError::DataAlignmentError(string_from_chars(m.as_slice())));
        }
        let diff = self.bytes.len() % (alignment as usize);
        if diff != 0 {
            let pad = alignment as usize - diff;
            let ghost before = self@.bytes;
            let mut k: usize = 0;
            while k < pad
                invariant
                    k <= pad,
                    self@ == (StateView { bytes: before + Seq::new(k as nat, |i: int| 0u8), ..old(self)@ }),
                decreases pad - k,
            {
                self.bytes.push(0);
                assert(self@.bytes =~= before + Seq::new((k + 1) as nat, |i: int| 0u8));
                k += 1;
            }
        }
        Ok(())
    }

    /// Appends the big-endian encoding of an instruction.
    fn append(&mut self, instruction: Instruction) -> (r: Result<(), ParseError>)
        ensures
            final(self)@ == appended(old(self)@, instruction).0,
            match appended(old(self)@, instruction).1 {
                Ok(_) => r is Ok,
                Err(f) => r matches Err(e) && reported(f, e),
            },
    {
        reveal(appended);
        let word = match encode(instruction) {
            Ok(w) => w,
            Err(e) => return Err(ParseError::EncodeError(e)),
        };
        self.push_word(word);
        Ok(())
    }

    fn push_word(&mut self, word: u32)
        ensures
            final(self)@ == (StateView { bytes: old(self)@.bytes + be_bytes(word), ..old(self)@ }),
    {
        let ghost before = self@.bytes;
        self.bytes.push((word / 0x100_0000) as u8);
        self.bytes.push((word / 0x1_0000 % 0x100) as u8);
        self.bytes.push((word / 0x100 % 0x100) as u8);
        self.bytes.push((word % 0x100) as u8);
        assert(self@.bytes =~= before + be_bytes(word));
    }

    /// Appends the bytes of an included file.
    pub fn insert_data(&mut self, data: &[u8])
        ensures
            final(self)@ == (StateView { bytes: old(self)@.bytes + data@, ..old(self)@ }),
    {
        let ghost before = self@.bytes;
        let mut k: usize = 0;
        while k < data.len()
            invariant
                k <= data@.len(),
                self@ == (StateView { bytes: before + data@.take(k as int), ..old(self)@ }),
            decreases data@.len() - k,
        {
            self.bytes.push(data[k]);
            assert(self@.bytes =~= before + data@.take(k + 1));
            k += 1;
        }
        assert(data@.take(data@.len() as int) =~= data@);
    }

    fn assemble_bss(&mut self, label: &[char], alignment: &[char], size: &[char]) -> (r: Result<(), ParseError>)
        ensures
            final(self)@ == bss_assembled(old(self)@, label@, alignment@, size@).0,
            match bss_assembled(old(self)@, label@, alignment@, size@).1 {
                Ok(_) => r is Ok,
                Err(f) => r matches Err(e) && reported(f, e),
            },
    {
        self.check_new_label(label)?;
        self.mangle_name(label);
        let alignment = immu(alignment, 0, 0)?;
        let size = immu(size, 0, 0)?;
        let mangled = self.mangled_name(label);
        self.insert_bss(label, Bss { alignment, size, name: string_from_chars(mangled.as_slice()) });
        Ok(())
    }

    fn assemble_nomangle(&mut self, label: &[char]) -> (r: Result<(), ParseError>)
        ensures
            final(self)@ == nomangled(old(self)@, label@).0,
            match nomangled(old(self)@, label@).1 {
                Ok(_) => r is Ok,
                Err(f) => r matches Err(e) && reported(f, e),
            },
    {
        self.check_new_label(label)?;
        proof {
            self.lemma_keys();
        }
        if find_entry(&self.mangles, label).is_some() {
            let mut m = chars_of(".nomangle after usage: ");
            m.extend_from_slice(label);
            assert(m@ =~= ".nomangle after usage: "@ + label@);
            return Err(ParseError::InvalidInstruction(string_from_chars(m.as_slice())));
        }
        let ghost before = self@;
        self.mangles.push((vstd::slice::slice_to_vec(label), vstd::slice::slice_to_vec(label)));
        assert(self@.mangles =~= before.mangles.push((label@, label@)));
        Ok(())
    }

    fn assemble_org(&mut self, location: &[char]) -> (r: Result<(), ParseError>)
        ensures
            final(self)@ == org_placed(old(self)@, location@).0,
            match org_placed(old(self)@, location@).1 {
                Ok(_) => r is Ok,
                Err(f) => r matches Err(e) && reported(f, e),
            },
    {
        if self.mode == Modes::Bss {
            let m = chars_of("Cannot place items in .bss section");
            return Err(ParseError::InvalidInstruction(string_from_chars(m.as_slice())));
        }
        let size = immu(location, 0, 0)? as usize;
        if self.bytes.len() < size {
            let ghost before = self@.bytes;
            while self.bytes.len() < size
                invariant
                    before.len() <= self@.bytes.len() <= size,
                    self@ == (StateView { bytes: before + Seq::new((self@.bytes.len() - before.len()) as nat, |i: int| 0u8), ..old(self)@ }),
                decreases size - self@.bytes.len(),
            {
                self.bytes.push(0);
                assert(self@.bytes =~= before + Seq::new((self@.bytes.len() - before.len()) as nat, |i: int| 0u8));
            }
        }
        Ok(())
    }

    /// A jump, branch or trap operand: a symbol becomes a relocation at the
    /// current position and the value zero; otherwise a number in `min..=max`.
    fn rimmi(
        &mut self,
        imm: &[char],
        min: i64,
        max: i64,
        addend: i32,
        base: RelocationBase,
        sign: RelocationSign,
        value_shift: u8,
        width: u8,
        field_shift: u8,
    ) -> (r: Result<i32, ParseError>)
        ensures
            ({
                let t = RelocationTemplate { addend, base, sign, value_shift, width, field_shift };
                &&& final(self)@ == target_operand(old(self)@, imm@, min as int, max as int, t).0
                &&& match target_operand(old(self)@, imm@, min as int, max as int, t).1 {
                    Ok(v) => r == Ok::<i32, ParseError>(v),
                    Err(f) => r matches Err(e) && reported(f, e),
                }
            }),
    {
        if is_valid_symbol_name(imm) {
            let patch_offset = self.bytes.len() as u32;
            self.mangle_name(imm);
            let mangled = self.mangled_name(imm);
            let ghost before = self@;
            let rel = Relocation {
                patch_offset,
                symbol: string_from_chars(mangled.as_slice()),
                addend,
                base,
                sign,
                value_shift,
                width,
                field_shift,
            };
            self.relocations.push(rel);
            assert(self@.relocations =~= before.relocations.push(fields_of(rel)));
            Ok(0)
        } else {
            immi(imm, min, max)
        }
    }

    /// Appends a value at a width of 8, 16 or 32 bits, big-endian.
    fn push_sized(&mut self, v: u32, bits: u8)
        ensures
            final(self)@ == (StateView { bytes: old(self)@.bytes + sized_bytes(v, bits), ..old(self)@ }),
    {
        let ghost before = self@.bytes;
        if bits == 8 {
            self.bytes.push((v % 0x100) as u8);
        } else if bits == 16 {
            self.bytes.push((v / 0x100 % 0x100) as u8);
            self.bytes.push((v % 0x100) as u8);
        } else {
            self.push_word(v);
        }
        assert(self@.bytes =~= before + sized_bytes(v, bits));
    }

    fn append_signed(&mut self, label: &[char], name: Vec<char>, data: &[char], bits: u8) -> (r: Result<(), ParseError>)
        requires
            bits == 8 || bits == 16 || bits == 32,
        ensures
            final(self)@ == signed_appended(old(self)@, label@, name@, data@, bits).0,
            match signed_appended(old(self)@, label@, name@, data@, bits).1 {
                Ok(_) => r is Ok,
                Err(f) => r matches Err(e) && reported(f, e),
            },
    {
        self.ensure_alignment(bits / 8)?;
        let address = self.bytes.len() as u32;
        let half: i64 = if bits == 8 {
            0x80
        } else if bits == 16 {
            0x8000
        } else {
            0x8000_0000
        };
        let value = immi(data, -half, half - 1)?;
        self.push_sized(value as u32, bits);
        self.insert_symbol(label, Symbol { offset: address, name: string_from_chars(name.as_slice()) });
        Ok(())
    }

    fn append_unsigned(&mut self, label: &[char], name: Vec<char>, data: &[char], bits: u8) -> (r: Result<(), ParseError>)
        requires
            bits == 8 || bits == 16 || bits == 32,
        ensures
            final(self)@ == unsigned_appended(old(self)@, label@, name@, data@, bits).0,
            match unsigned_appended(old(self)@, label@, name@, data@, bits).1 {
                Ok(_) => r is Ok,
                Err(f) => r matches Err(e) && reported(f, e),
            },
    {
        self.ensure_alignment(bits / 8)?;
        let address = self.bytes.len() as u32;
        let value = if is_valid_symbol_name(data) {
            self.mangle_name(data);
            let target = self.mangled_name(data);
            let ghost before = self@;
            let rel = Relocation {
                patch_offset: address,
                symbol: string_from_chars(target.as_slice()),
                addend: 0,
                base: RelocationBase::Absolute,
                sign: RelocationSign::Unsigned,
                value_shift: 0,
                width: 32,
                field_shift: 0,
            };
            self.relocations.push(rel);
            assert(self@.relocations =~= before.relocations.push(fields_of(rel)));
            0
        } else {
            let max: i64 = if bits == 8 {
                0xFF
            } else if bits == 16 {
                0xFFFF
            } else {
                0xFFFF_FFFF
            };
            immu(data, 0, max)?
        };
        self.push_sized(value, bits);
        self.insert_symbol(label, Symbol { offset: address, name: string_from_chars(name.as_slice()) });
        Ok(())
    }

    fn append_string(&mut self, label: &[char], name: Vec<char>, data: &[char], zero_term: bool) -> (r: Result<(), ParseError>)
        ensures
            final(self)@ == string_appended(old(self)@, label@, name@, data@, zero_term).0,
            match string_appended(old(self)@, label@, name@, data@, zero_term).1 {
                Ok(_) => r is Ok,
                Err(f) => r matches Err(e) && reported(f, e),
            },
    {
        let content = parse_string_literal(data)?;
        let extra: u128 = if zero_term {
            1
        } else {
            0
        };
        let target: u128 = self.bytes.len() as u128 + content.len() as u128 + extra;
        if target > 0xFFFF_FFFF {
            let mut m = chars_of("Calculated data size is too large: ");
            push_decimal(&mut m, target);
            return Err(ParseError::DataAlignmentError(string_from_chars(m.as_slice())));
        }
        let address = self.bytes.len() as u32;
        let ghost before = self@;
        self.insert_data(content.as_slice());
        if zero_term {
            self.bytes.push(0);
        }
        proof {
            let c = if zero_term { content@.push(0u8) } else { content@ };
            assert(self@.bytes =~= before.bytes + c);
        }
        self.insert_symbol(label, Symbol { offset: address, name: string_from_chars(name.as_slice()) });
        Ok(())
    }

    fn append_space(&mut self, label: &[char], name: Vec<char>, data: &[char], data2: &[char]) -> (r: Result<(), ParseError>)
        ensures
            final(self)@ == space_appended(old(self)@, label@, name@, data@, data2@).0,
            match space_appended(old(self)@, label@, name@, data@, data2@).1 {
                Ok(_) => r is Ok,
                Err(f) => r matches Err(e) && reported(f, e),
            },
    {
        let alignment = immu(data, 0, 0)? as u8;
        self.ensure_alignment(alignment)?;
        let address = self.bytes.len() as u32;
        let size = immu(data2, 0, 0)?;
        let target: u128 = self.bytes.len() as u128 + size as u128;
        if target > 0xFFFF_FFFF {
            let mut m = chars_of("Calculated data size is too large: ");
            push_decimal(&mut m, target);
            return Err(ParseError::DataAlignmentError(string_from_chars(m.as_slice())));
        }
        let ghost before = self@;
        let mut k: u32 = 0;
        while k < size
            invariant
                k <= size,
                self@ == (StateView { bytes: before.bytes + Seq::new(k as nat, |i: int| 0u8), ..before }),
            decreases size - k,
        {
            self.bytes.push(0);
            assert(self@.bytes =~= before.bytes + Seq::new((k + 1) as nat, |i: int| 0u8));
            k += 1;
        }
        self.insert_symbol(label, Symbol { offset: address, name: string_from_chars(name.as_slice()) });
        Ok(())
    }

    fn assemble_data(&mut self, label: &[char], format: &[char], data: &[char], data2: &[char]) -> (r: Result<(), ParseError>)
        ensures
            final(self)@ == data_assembled(old(self)@, label@, format@, data@, data2@).0,
            match data_assembled(old(self)@, label@, format@, data@, data2@).1 {
                Ok(_) => r is Ok,
                Err(f) => r matches Err(e) && reported(f, e),
            },
    {
        self.check_new_label(label)?;
        self.mangle_name(label);
        let name = self.mangled_name(label);
        if chars_equal_str(format, ".byte") {
            self.append_signed(label, name, data, 8)
        } else if chars_equal_str(format, ".ubyte") {
            self.append_unsigned(label, name, data, 8)
        } else if chars_equal_str(format, ".half") || chars_equal_str(format, ".uhalf") {
            self.append_signed(label, name, data, 16)
        } else if chars_equal_str(format, ".word") {
            self.append_signed(label, name, data, 32)
        } else if chars_equal_str(format, ".uword") {
            self.append_unsigned(label, name, data, 32)
        } else if chars_equal_str(format, ".ascii") {
            self.append_string(label, name, data, false)
        } else if chars_equal_str(format, ".asciz") {
            self.append_string(label, name, data, true)
        } else if chars_equal_str(format, ".space") {
            self.append_space(label, name, data, data2)
        } else {
            let mut m = chars_of("Invalid instruction: ");
            m.extend_from_slice(format);
            assert(m@ =~= "Invalid instruction: "@ + format@);
            Err(ParseError::InvalidInstruction(string_from_chars(m.as_slice())))
        }
    }

    /// `la`: loads a label's address with `lli` and `lhi`, each patched by a
    /// relocation.
    fn load_address(&mut self, rd: u8, label: &[char]) -> (r: Result<(), ParseError>)
        ensures
            final(self)@ == address_loaded(old(self)@, rd, label@).0,
            match address_loaded(old(self)@, rd, label@).1 {
                Ok(_) => r is Ok,
                Err(f) => r matches Err(e) && reported(f, e),
            },
    {
        reveal(address_loaded);
        self.mangle_name(label);
        let name = self.mangled_name(label);
        let ghost s1 = self@;
        let low = Relocation {
            patch_offset: self.bytes.len() as u32,
            symbol: string_from_chars(name.as_slice()),
            addend: 0,
            base: RelocationBase::Absolute,
            sign: RelocationSign::Unsigned,
            value_shift: 0,
            width: 16,
            field_shift: 4,
        };
        self.relocations.push(low);
        assert(self@.relocations =~= s1.relocations.push(fields_of(low)));
        self.append(Instruction::Lli { rd, imm16: 0 })?;
        let ghost s2 = self@;
        let high = Relocation {
            patch_offset: self.bytes.len() as u32,
            symbol: string_from_chars(name.as_slice()),
            addend: 0,
            base: RelocationBase::Absolute,
            sign: RelocationSign::Unsigned,
            value_shift: 16,
            width: 16,
            field_shift: 4,
        };
        self.relocations.push(high);
        assert(self@.relocations =~= s2.relocations.push(fields_of(high)));
        self.append(Instruction::Lhi { rd, imm16: 0 })
    }

    /// `push` (or `pop`) of the registers from the second token on.
    fn stack_registers(&mut self, t: &Vec<Vec<char>>, pop: bool) -> (r: Result<(), ParseError>)
        requires
            t@.len() >= 1,
        ensures
            final(self)@ == stacked(old(self)@, token_views(t@).skip(1), pop).0,
            match stacked(old(self)@, token_views(t@).skip(1), pop).1 {
                Ok(_) => r is Ok,
                Err(f) => r matches Err(e) && reported(f, e),
            },
    {
        let ghost regs = token_views(t@).skip(1);
        assert(regs.skip(0) =~= regs);
        let mut k: usize = 1;
        while k < t.len()
            invariant
                1 <= k <= t@.len(),
                regs == token_views(t@).skip(1),
                stacked(old(self)@, regs, pop) == stacked(self@, regs.skip(k - 1), pop),
            decreases t@.len() - k,
        {
            let ghost rest = regs.skip(k - 1);
            assert(rest[0] == t@[k as int]@);
            assert(rest.drop_first() =~= regs.skip(k as int));
            let r = match reg(t[k].as_slice()) {
                Ok(v) => v,
                Err(e) => return Err(e),
            };
            if pop {
                self.append(Instruction::Lw { rd: r, base: 14, offset: 0 })?;
                self.append(Instruction::Addi { rd: 14, ra: 14, imm: 4 })?;
            } else {
                self.append(Instruction::Subi { rd: 14, ra: 14, imm: 4 })?;
                self.append(Instruction::Sw { rs: r, base: 14, offset: 0 })?;
            }
            k += 1;
        }
        assert(regs.skip(k - 1).len() == 0);
        Ok(())
    }

    /// `trap`, `jmp` or `call`.
    fn target_instruction(&mut self, op: &[char], x: &[char]) -> (r: Result<(), ParseError>)
        ensures
            final(self)@ == target_line(old(self)@, op@, x@).0,
            match target_line(old(self)@, op@, x@).1 {
                Ok(_) => r is Ok,
                Err(f) => r matches Err(e) && reported(f, e),
            },
    {
        reveal(target_line);
        if chars_equal_str(op, "trap") {
            let v = self.rimmi(x, 0, MAX_U12, 0, RelocationBase::Relative, RelocationSign::Signed, 2, 12, 0)?;
            self.append(Instruction::SoftwareTrap { imm: v as u32 })
        } else {
            let v = self.rimmi(x, MIN_I28, MAX_I28, -4, RelocationBase::Relative, RelocationSign::Signed, 2, 26, 0)?;
            if chars_equal_str(op, "jmp") {
                self.append(Instruction::Jmp { offset: v })
            } else {
                self.append(Instruction::Call { offset: v })
            }
        }
    }

    fn unknown_instruction(op: &[char]) -> (e: ParseError)
        ensures
            reported(PFault::Instruction("Instruction unknown: "@ + op@), e),
    {
        let mut m = chars_of("Instruction unknown: ");
        m.extend_from_slice(op);
        assert(m@ =~= "Instruction unknown: "@ + op@);
        ParseError::InvalidInstruction(string_from_chars(m.as_slice()))
    }

    /// A register-compare branch.
    fn branch_instruction(&mut self, t: &Vec<Vec<char>>) -> (r: Result<(), ParseError>)
        requires
            t@.len() == 4,
        ensures
            final(self)@ == branch_line(old(self)@, token_views(t@)).0,
            match branch_line(old(self)@, token_views(t@)).1 {
                Ok(_) => r is Ok,
                Err(f) => r matches Err(e) && reported(f, e),
            },
    {
        reveal(branch_line);
        let ghost tv = token_views(t@);
        assert(t[0]@ == tv[0] && t[1]@ == tv[1] && t[2]@ == tv[2] && t[3]@ == tv[3]);
        let ra = reg(t[1].as_slice())?;
        let rb = reg(t[2].as_slice())?;
        let v = self.rimmi(t[3].as_slice(), MIN_I16, MAX_I16, -4, RelocationBase::Relative, RelocationSign::Signed, 2, 14, 8)?;
        match branch_of(t[0].as_slice(), ra, rb, v) {
            Some(i) => self.append(i),
            None => Err(Self::unknown_instruction(t[0].as_slice())),
        }
    }

    /// A flag branch.
    fn flag_branch_instruction(&mut self, op: &[char], x: &[char]) -> (r: Result<(), ParseError>)
        ensures
            final(self)@ == flag_branch_line(old(self)@, op@, x@).0,
            match flag_branch_line(old(self)@, op@, x@).1 {
                Ok(_) => r is Ok,
                Err(f) => r matches Err(e) && reported(f, e),
            },
    {
        reveal(flag_branch_line);
        let v = self.rimmi(x, MIN_I24, MAX_I24, -4, RelocationBase::Relative, RelocationSign::Signed, 2, 22, 0)?;
        match flag_branch_of(op, v) {
            Some(i) => self.append(i),
            None => Err(Self::unknown_instruction(op)),
        }
    }

    /// `li`.
    fn load_constant(&mut self, x: &[char], y: &[char]) -> (r: Result<(), ParseError>)
        ensures
            final(self)@ == constant_loaded(old(self)@, x@, y@).0,
            match constant_loaded(old(self)@, x@, y@).1 {
                Ok(_) => r is Ok,
                Err(f) => r matches Err(e) && reported(f, e),
            },
    {
        reveal(constant_loaded);
        let rd = reg(x)?;
        let v = immu(y, 0, MAX_U32)?;
        self.append(Instruction::Lli { rd, imm16: (v % 0x1_0000) as u16 })?;
        self.append(Instruction::Lhi { rd, imm16: (v / 0x1_0000) as u16 })
    }

    /// Four zero bytes for a line of no known form.
    fn unknown_line(&mut self) -> (r: Result<LineOutcome, ParseError>)
        ensures
            final(self)@ == unknown_line(old(self)@).0,
            outcome_reported(unknown_line(old(self)@).1, r),
    {
        self.push_word(0);
        assert(be_bytes(0) =~= seq![0u8, 0u8, 0u8, 0u8]);
        Ok(LineOutcome::Unknown)
    }

    /// A line in the text section.
    fn text_line(&mut self, t: &Vec<Vec<char>>) -> (r: Result<LineOutcome, ParseError>)
        ensures
            final(self)@ == text_assembled(old(self)@, token_views(t@)).0,
            outcome_reported(text_assembled(old(self)@, token_views(t@)).1, r),
    {
        let ghost tv = token_views(t@);
        match form_of(t) {
            Some(Ok(i)) => {
                self.append(i)?;
                return Ok(LineOutcome::Assembled);
            },
            Some(Err(e)) => return Err(e),
            None => {},
        }
        let n = t.len();
        if n == 0 {
            return self.unknown_line();
        }
        let op = t[0].as_slice();
        assert(op@ == tv[0]);
        if n == 2 && (chars_equal_str(op, "trap") || chars_equal_str(op, "jmp") || chars_equal_str(op, "call")) {
            assert(t[1]@ == tv[1]);
            self.target_instruction(op, t[1].as_slice())?;
            return Ok(LineOutcome::Assembled);
        }
        if n == 4 && starts_with_str(op, "b.") {
            self.branch_instruction(t)?;
            return Ok(LineOutcome::Assembled);
        }
        if n == 2 && starts_with_str(op, "bf.") {
            assert(t[1]@ == tv[1]);
            self.flag_branch_instruction(op, t[1].as_slice())?;
            return Ok(LineOutcome::Assembled);
        }
        if n == 3 && chars_equal_str(op, "li") {
            assert(t[1]@ == tv[1] && t[2]@ == tv[2]);
            self.load_constant(t[1].as_slice(), t[2].as_slice())?;
            return Ok(LineOutcome::Assembled);
        }
        if n == 3 && chars_equal_str(op, "la") {
            assert(t[1]@ == tv[1] && t[2]@ == tv[2]);
            let rd = reg(t[1].as_slice())?;
            self.load_address(rd, t[2].as_slice())?;
            return Ok(LineOutcome::Assembled);
        }
        if chars_equal_str(op, "push") {
            self.stack_registers(t, false)?;
            return Ok(LineOutcome::Assembled);
        }
        if chars_equal_str(op, "pop") {
            self.stack_registers(t, true)?;
            return Ok(LineOutcome::Assembled);
        }
        self.unknown_line()
    }

    /// A line's tokens.
    fn process_tokens(&mut self, t: &Vec<Vec<char>>) -> (r: Result<LineOutcome, ParseError>)
        ensures
            final(self)@ == line_assembled(old(self)@, token_views(t@)).0,
            outcome_reported(line_assembled(old(self)@, token_views(t@)).1, r),
    {
        let ghost tv = token_views(t@);
        let n = t.len();
        if n >= 1 {
            let op = t[0].as_slice();
            assert(op@ == tv[0]);
            if chars_equal_str(op, ".text") {
                self.mode = Modes::Text;
                return Ok(LineOutcome::Assembled);
            }
            if chars_equal_str(op, ".data") {
                self.mode = Modes::Data;
                return Ok(LineOutcome::Assembled);
            }
            if chars_equal_str(op, ".rodata") {
                self.mode = Modes::RoData;
                return Ok(LineOutcome::Assembled);
            }
            if chars_equal_str(op, ".bss") {
                self.mode = Modes::Bss;
                return Ok(LineOutcome::Assembled);
            }
            if n == 3 && chars_equal_str(op, ".const") {
                assert(t[1]@ == tv[1] && t[2]@ == tv[2]);
                self.add_constant(t[1].as_slice(), t[2].as_slice())?;
                return Ok(LineOutcome::Assembled);
            }
            if n == 2 && chars_equal_str(op, ".org") {
                assert(t[1]@ == tv[1]);
                self.assemble_org(t[1].as_slice())?;
                return Ok(LineOutcome::Assembled);
            }
            if n == 2 && chars_equal_str(op, ".nomangle") {
                assert(t[1]@ == tv[1]);
                self.assemble_nomangle(t[1].as_slice())?;
                return Ok(LineOutcome::Assembled);
            }
        }
        let data_section = self.mode == Modes::Data || self.mode == Modes::RoData;
        if n == 5 && chars_equal_str(t[1].as_slice(), ":") && (self.mode == Modes::Bss || data_section) {
            assert(t[0]@ == tv[0] && t[1]@ == tv[1] && t[2]@ == tv[2] && t[3]@ == tv[3] && t[4]@ == tv[4]);
            if self.mode == Modes::Bss {
                if chars_equal_str(t[2].as_slice(), ".space") {
                    self.assemble_bss(t[0].as_slice(), t[3].as_slice(), t[4].as_slice())?;
                    return Ok(LineOutcome::Assembled);
                }
            } else {
                self.assemble_data(t[0].as_slice(), t[2].as_slice(), t[3].as_slice(), t[4].as_slice())?;
                return Ok(LineOutcome::Assembled);
            }
        }
        if data_section && n == 4 && chars_equal_str(t[1].as_slice(), ":") {
            assert(t[0]@ == tv[0] && t[1]@ == tv[1] && t[2]@ == tv[2] && t[3]@ == tv[3]);
            if chars_equal_str(t[2].as_slice(), ".bin") {
                self.ensure_alignment(4)?;
                self.assemble_label(t[0].as_slice())?;
                return Ok(LineOutcome::IncludeBinary(string_from_chars(t[3].as_slice())));
            }
            let zero = chars_of("0");
            self.assemble_data(t[0].as_slice(), t[2].as_slice(), t[3].as_slice(), zero.as_slice())?;
            return Ok(LineOutcome::Assembled);
        }
        if self.mode == Modes::Text {
            if n == 2 && chars_equal_str(t[1].as_slice(), ":") {
                assert(t[0]@ == tv[0] && t[1]@ == tv[1]);
                self.assemble_label(t[0].as_slice())?;
                return Ok(LineOutcome::Assembled);
            }
            return self.text_line(t);
        }
        self.unknown_line()
    }

    /// Assembles one source line, numbered `line_no` from zero; a failure
    /// reports the file and the line.
    pub fn assemble_line(&mut self, line_no: usize, line: &str) -> (r: Result<LineOutcome, AssemblerError>)
        ensures
            final(self)@ == source_line(old(self)@, line@).0,
            match source_line(old(self)@, line@).1 {
                Ok(g) => outcome_reported(Ok(g), match r {
                    Ok(o) => Ok(o),
                    Err(e) => Err(e.err),
                }),
                Err(f) => r matches Err(e) && reported(f, e.err) && e.filename@ == old(self)@.filename && e.line == line_no,
            },
            names_unique(old(self)@) ==> names_unique(final(self)@),
    {
        proof {
            if names_unique(self@) {
                lemma_source_line_keeps_names_unique(self@, line@);
            }
        }
        let chars = chars_of(line);
        let stripped = match strip_spaces_comments(chars.as_slice()) {
            None => return Ok(LineOutcome::Assembled),
            Some(l) => l,
        };
        let t = self.tokenize(stripped.as_slice());
        proof {
            assert(token_views(t@) =~= tokens(self@.constants, stripped@));
        }
        let filename = self.filename.clone();
        match self.process_tokens(&t) {
            Ok(o) => Ok(o),
            Err(err) => Err(AssemblerError { err, filename, line: line_no }),
        }
    }

    /// The object the assembled lines make: BSS entries ordered by name,
    /// symbols by offset, the relocations in the order they arose, and the
    /// section bytes.
    pub fn build_object_file(self) -> (o: ObjectFile)
        ensures
            object_value(o).bytes == self@.bytes,
            object_value(o).relocations == self@.relocations,
            object_value(o).symbols.to_multiset() == self@.symbols.map_values(
                |e: (Seq<char>, (u32, Seq<char>))| e.1,
            ).to_multiset(),
            forall|i: int, j: int| 0 <= i < j < o.symbols@.len() ==> o.symbols@[i].offset <= o.symbols@[j].offset,
            object_value(o).bss.to_multiset() == self@.bss.map_values(|e: (Seq<char>, (u32, u32, Seq<char>))| e.1).to_multiset(),
            forall|i: int, j: int| 0 <= i < j < o.bss@.len() ==> !chars_lt(o.bss@[j].name@, o.bss@[i].name@),
    {
        let bss = sorted_bss(&self.bss);
        let symbols = sorted_symbols(&self.symbols);
        proof {
            assert(self@.symbols.map_values(|e: (Seq<char>, (u32, Seq<char>))| e.1) =~= self.symbols@.map_values(
                |e: (Vec<char>, Symbol)| symbol_value(e.1),
            ));
            assert(self@.bss.map_values(|e: (Seq<char>, (u32, u32, Seq<char>))| e.1) =~= self.bss@.map_values(
                |e: (Vec<char>, Bss)| bss_value(e.1),
            ));
        }
        ObjectFile { bss, symbols, relocations: self.relocations, bytes: self.bytes }
    }

    /// Splits a line into tokens.
    fn tokenize(&self, line: &[char]) -> (r: Vec<Vec<char>>)
        ensures
            r@.len() == tokens(self@.constants, line@).len(),
            forall|i: int| 0 <= i < r@.len() ==> #[trigger] r@[i]@ == tokens(self@.constants, line@)[i],
    {
        let mut quote: Option<usize> = None;
        let mut i: usize = 0;
        while i < line.len()
            invariant
                i <= line@.len(),
                quote is None ==> quote_at(line@, 0) == quote_at(line@, i as int),
                quote matches Some(q) ==> quote_at(line@, 0) == Some(q as int) && q < line@.len(),
            ensures
                i <= line@.len(),
                quote is None ==> quote_at(line@, 0) == quote_at(line@, i as int) && i == line@.len(),
                quote matches Some(q) ==> quote_at(line@, 0) == Some(q as int) && q < line@.len(),
            decreases line@.len() - i, (if quote is None { 1int } else { 0int }),
        {
            if quote.is_none() && line[i] == '"' {
                quote = Some(i);
            } else {
                i += 1;
            }
            if quote.is_some() {
                break;
            }
        }
        let end = match quote {
            Some(q) => q,
            None => line.len(),
        };
        let mut normalized_prefix: Vec<char> = Vec::new();
        let mut k: usize = 0;
        while k < end
            invariant
                k <= end <= line@.len(),
                normalized_prefix@ == normalized(line@.take(k as int)),
            decreases end - k,
        {
            let ch = line[k];
            let ghost before = normalized_prefix@;
            if ch == ',' || ch == '$' || ch == '[' || ch == ']' {
                normalized_prefix.push(' ');
            } else if ch == ':' {
                normalized_prefix.push(' ');
                normalized_prefix.push(':');
                normalized_prefix.push(' ');
            } else {
                normalized_prefix.push(ch);
            }
            assert(line@.take(k + 1).drop_last() =~= line@.take(k as int));
            assert(normalized_prefix@ =~= normalized(line@.take(k + 1)));
            k += 1;
        }
        if quote.is_none() {
            assert(line@.take(end as int) =~= line@);
        }
        let words = crate::text::split_whitespace(normalized_prefix.as_slice());
        let mut parts: Vec<Vec<char>> = Vec::new();
        let ghost ws = crate::text::words(normalized_prefix@);
        proof {
            self.lemma_keys();
        }
        let mut j: usize = 0;
        while j < words.len()
            invariant
                j <= words@.len(),
                words@.len() == ws.len(),
                forall|m: int| 0 <= m < words@.len() ==> #[trigger] words@[m]@ == ws[m],
                keys_of(self@.constants) == self.constants@.map_values(|e: (Vec<char>, Vec<char>)| e.0@),
                parts@.len() == j,
                forall|m: int| 0 <= m < j ==> #[trigger] parts@[m]@ == resolved(self@.constants, ws[m]),
            decreases words@.len() - j,
        {
            let word = words[j].as_slice();
            match find_entry(&self.constants, word) {
                Some(c) => parts.push(vstd::slice::slice_to_vec(self.constants[c].1.as_slice())),
                None => parts.push(vstd::slice::slice_to_vec(word)),
            }
            j += 1;
        }
        if let Some(q) = quote {
            let mut rest: Vec<char> = Vec::new();
            let mut m: usize = q;
            while m < line.len()
                invariant
                    q <= m <= line@.len(),
                    rest@ == line@.subrange(q as int, m as int),
                decreases line@.len() - m,
            {
                rest.push(line[m]);
                assert(rest@ =~= line@.subrange(q as int, m + 1));
                m += 1;
            }
            assert(rest@ =~= line@.skip(q as int));
            parts.push(crate::text::trim_chars(rest.as_slice()));
        }
        proof {
            let toks = tokens(self@.constants, line@);
            let mapped = ws.map_values(|w: Seq<char>| resolved(self@.constants, w));
            match quote {
                Some(q) => {
                    assert(toks =~= mapped.push(crate::text::trim(line@.skip(q as int))));
                },
                None => {
                    assert(quote_at(line@, line@.len() as int) is None);
                    assert(normalized_prefix@ == normalized(line@));
                    assert(quote_at(line@, 0) is None);
                    assert(ws == crate::text::words(normalized(line@)));
                    assert(toks =~= mapped);
                },
            }
            assert forall|m: int| 0 <= m < parts@.len() implies #[trigger] parts@[m]@ == toks[m] by {
                if m < ws.len() {
                    assert(mapped[m] == resolved(self@.constants, ws[m]));
                }
            }
        }
        parts
    }
}

/// The symbols of a table ordered by offset, those at one offset in the
/// order of the table.
fn sorted_symbols(entries: &Vec<(Vec<char>, Symbol)>) -> (out: Vec<Symbol>)
    ensures
        out@.map_values(|x: Symbol| symbol_value(x)).to_multiset() == entries@.map_values(
            |e: (Vec<char>, Symbol)| symbol_value(e.1),
        ).to_multiset(),
        forall|i: int, j: int| 0 <= i < j < out@.len() ==> out@[i].offset <= out@[j].offset,
{
    broadcast use vstd::seq_lib::to_multiset_insert, vstd::seq_lib::to_multiset_build;

    let ghost values = entries@.map_values(|e: (Vec<char>, Symbol)| symbol_value(e.1));
    let mut out: Vec<Symbol> = Vec::new();
    let mut k: usize = 0;
    assert(out@.map_values(|x: Symbol| symbol_value(x)) =~= values.take(0));
    while k < entries.len()
        invariant
            k <= entries@.len(),
            values == entries@.map_values(|e: (Vec<char>, Symbol)| symbol_value(e.1)),
            out@.map_values(|x: Symbol| symbol_value(x)).to_multiset() == values.take(k as int).to_multiset(),
            forall|i: int, j: int| 0 <= i < j < out@.len() ==> out@[i].offset <= out@[j].offset,
        decreases entries@.len() - k,
    {
        let sym = Symbol { offset: entries[k].1.offset, name: entries[k].1.name.clone() };
        let mut p: usize = 0;
        while p < out.len() && out[p].offset <= sym.offset
            invariant
                p <= out@.len(),
                forall|i: int| 0 <= i < p ==> out@[i].offset <= sym.offset,
            decreases out@.len() - p,
        {
            p += 1;
        }
        let ghost before = out@;
        out.insert(p, sym);
        proof {
            assert(out@.map_values(|x: Symbol| symbol_value(x)) =~= before.map_values(|x: Symbol| symbol_value(x)).insert(
                p as int,
                symbol_value(sym),
            ));
            assert(symbol_value(sym) == values[k as int]);
            assert(values.take(k + 1) =~= values.take(k as int).push(symbol_value(sym)));
            vstd::seq_lib::to_multiset_insert(before.map_values(|x: Symbol| symbol_value(x)), p as int, symbol_value(sym));
            vstd::seq_lib::to_multiset_build(values.take(k as int), symbol_value(sym));
            assert forall|i: int, j: int| 0 <= i < j < out@.len() implies out@[i].offset <= out@[j].offset by {
                if j == p {
                    assert(out@[i] == before[i]);
                } else if i == p {
                    assert(out@[j] == before[j - 1]);
                    if p < before.len() {
                        assert(before[p as int].offset > sym.offset);
                        assert(before[p as int].offset <= before[j - 1].offset);
                    }
                } else if i < p && j > p {
                    assert(out@[i] == before[i] && out@[j] == before[j - 1]);
                } else if j < p {
                    assert(out@[i] == before[i] && out@[j] == before[j]);
                } else {
                    assert(out@[i] == before[i - 1] && out@[j] == before[j - 1]);
                }
            }
        }
        k += 1;
    }
    assert(values.take(entries@.len() as int) =~= values);
    out
}

/// The BSS entries of a table ordered by name, equal names in the order of
/// the table.
fn sorted_bss(entries: &Vec<(Vec<char>, Bss)>) -> (out: Vec<Bss>)
    ensures
        out@.map_values(|x: Bss| bss_value(x)).to_multiset() == entries@.map_values(
            |e: (Vec<char>, Bss)| bss_value(e.1),
        ).to_multiset(),
        forall|i: int, j: int| 0 <= i < j < out@.len() ==> !chars_lt(out@[j].name@, out@[i].name@),
{
    broadcast use vstd::seq_lib::to_multiset_insert, vstd::seq_lib::to_multiset_build;

    let ghost values = entries@.map_values(|e: (Vec<char>, Bss)| bss_value(e.1));
    let mut out: Vec<Bss> = Vec::new();
    let mut names: Vec<Vec<char>> = Vec::new();
    let mut k: usize = 0;
    assert(out@.map_values(|x: Bss| bss_value(x)) =~= values.take(0));
    while k < entries.len()
        invariant
            k <= entries@.len(),
            values == entries@.map_values(|e: (Vec<char>, Bss)| bss_value(e.1)),
            out@.map_values(|x: Bss| bss_value(x)).to_multiset() == values.take(k as int).to_multiset(),
            names@.len() == out@.len(),
            forall|i: int| 0 <= i < names@.len() ==> #[trigger] names@[i]@ == out@[i].name@,
            forall|i: int, j: int| 0 <= i < j < out@.len() ==> !chars_lt(out@[j].name@, out@[i].name@),
        decreases entries@.len() - k,
    {
        let entry = Bss { alignment: entries[k].1.alignment, size: entries[k].1.size, name: entries[k].1.name.clone() };
        let name = chars_of(entry.name.as_str());
        let mut p: usize = 0;
        while p < out.len() && !chars_less(name.as_slice(), names[p].as_slice())
            invariant
                p <= out@.len(),
                names@.len() == out@.len(),
                forall|i: int| 0 <= i < names@.len() ==> #[trigger] names@[i]@ == out@[i].name@,
                forall|i: int| 0 <= i < p ==> !chars_lt(name@, out@[i].name@),
            decreases out@.len() - p,
        {
            p += 1;
        }
        let ghost before = out@;
        let ghost before_names = names@;
        out.insert(p, entry);
        names.insert(p, name);
        proof {
            assert(out@.map_values(|x: Bss| bss_value(x)) =~= before.map_values(|x: Bss| bss_value(x)).insert(
                p as int,
                bss_value(entry),
            ));
            assert(bss_value(entry) == values[k as int]);
            assert(values.take(k + 1) =~= values.take(k as int).push(bss_value(entry)));
            vstd::seq_lib::to_multiset_insert(before.map_values(|x: Bss| bss_value(x)), p as int, bss_value(entry));
            vstd::seq_lib::to_multiset_build(values.take(k as int), bss_value(entry));
            assert forall|i: int| 0 <= i < names@.len() implies #[trigger] names@[i]@ == out@[i].name@ by {
                if i < p {
                    assert(names@[i] == before_names[i]);
                } else if i > p {
                    assert(names@[i] == before_names[i - 1]);
                }
            }
            assert forall|i: int, j: int| 0 <= i < j < out@.len() implies !chars_lt(out@[j].name@, out@[i].name@) by {
                if j == p {
                    assert(out@[i] == before[i]);
                } else if i == p {
                    assert(out@[j] == before[j - 1]);
                    assert(chars_lt(entry.name@, before[p as int].name@));
                    if chars_lt(before[j - 1].name@, entry.name@) {
                        if j - 1 == p {
                            crate::text::lemma_chars_lt_asymmetric(entry.name@, before[p as int].name@);
                        } else {
                            crate::text::lemma_chars_lt_transitive(before[j - 1].name@, entry.name@, before[p as int].name@);
                        }
                    }
                } else if i < p && j > p {
                    assert(out@[i] == before[i] && out@[j] == before[j - 1]);
                } else if j < p {
                    assert(out@[i] == before[i] && out@[j] == before[j]);
                } else {
                    assert(out@[i] == before[i - 1] && out@[j] == before[j - 1]);
                }
            }
        }
        k += 1;
    }
    assert(values.take(entries@.len() as int) =~= values);
    out
}

/// What the constant `k` is after constants are given in order, a later one
/// replacing an earlier one of the same name.
pub open spec fn last_constant(given: Seq<(String, String)>, k: Seq<char>) -> Option<Seq<char>>
    decreases given.len(),
{
    if given.len() == 0 {
        None
    } else if given.last().0@ == k {
        Some(given.last().1@)
    } else {
        last_constant(given.drop_last(), k)
    }
}

/// A lookup after an insertion finds the inserted value for that key and the
/// old value for every other key.
pub proof fn lemma_lookup_inserted<V>(t: Seq<(Seq<char>, V)>, key: Seq<char>, v: V, k: Seq<char>)
    ensures
        lookup(inserted(t, key, v), k) == (if k == key {
            Some(v)
        } else {
            lookup(t, k)
        }),
{
    let keys = keys_of(t);
    let keys2 = keys_of(inserted(t, key, v));
    lemma_find_key(keys, key);
    lemma_find_key(keys, k);
    lemma_find_key(keys2, k);
    match find_key(keys, key) {
        Some(i) => {
            assert(keys2 =~= keys.update(i, key));
        },
        None => {
            assert(keys2 =~= keys.push(key));
        },
    }
    if k == key {
        match find_key(keys, key) {
            Some(i) => {
                super::tables::lemma_find_key_at(keys2, k, i);
            },
            None => {
                super::tables::lemma_find_key_at(keys2, k, keys.len() as int);
            },
        }
    } else {
        match find_key(keys, k) {
            Some(j) => {
                assert(keys2[j] == keys[j]);
                assert forall|m: int| 0 <= m < j implies keys2[m] != k by {
                    assert(keys2[m] == keys[m] || keys2[m] == key);
                }
                super::tables::lemma_find_key_at(keys2, k, j);
            },
            None => {
                assert forall|m: int| 0 <= m < keys2.len() implies keys2[m] != k by {
                    if m < keys.len() {
                        assert(keys2[m] == keys[m] || keys2[m] == key);
                    }
                }
                lemma_find_key(keys2, k);
            },
        }
    }
}

} // verus!
