use vstd::prelude::*;

use crate::emulator::bus::{be_word32, combine_word};
use crate::text::{dec_digits, dec_signed, push_decimal, push_signed_decimal, push_str, string_from_chars};
use crate::vo::bss::Bss;
use crate::vo::error::{vo_error_text, VoError};
use crate::vo::object_file::{bss_value, object_fault_reported, parse_object, symbol_value, ObjectFile, ObjectValue};
use crate::vo::relocation::{fields_of, Relocation, RelocationBase, RelocationFields, RelocationSign};
use crate::vo::symbol::Symbol;

use super::error::LinkerError;

verus! {

/// The sections, tables and relocations gathered so far.
pub ghost struct LinkerView {
    pub text: Seq<u8>,
    pub rodata: Seq<u8>,
    pub data: Seq<u8>,
    pub bss: Seq<(u32, u32, Seq<char>)>,
    pub symbols: Seq<(u32, Seq<char>)>,
    pub relocations: Seq<RelocationFields>,
}

/// A length rounded up to a multiple of four.
pub open spec fn word_aligned(len: int) -> int {
    if len % 4 != 0 {
        len + (4 - len % 4)
    } else {
        len
    }
}

/// Whether a symbol or BSS entry already has the name `label`.
pub open spec fn label_taken(l: LinkerView, label: Seq<char>) -> bool {
    (exists|i: int| 0 <= i < l.symbols.len() && #[trigger] l.symbols[i].1 == label)
        || (exists|i: int| 0 <= i < l.bss.len() && #[trigger] l.bss[i].2 == label)
}

/// Why adding or linking stopped.
pub ghost enum LinkFault {
    Object,
    Duplicate(Seq<char>),
    Unknown(Seq<char>),
    Range(Seq<char>),
}

/// The message for a relocation or offset that cannot be applied.
pub open spec fn cannot_apply() -> Seq<char> {
    "Relocation cannot be applied"@
}

/// The message for a signed value outside its relocation's width.
pub open spec fn range_text(r: RelocationFields, value: i64) -> Seq<char> {
    "Invalid range for width "@ + dec_digits(r.6 as nat) + " detected: "@ + dec_signed(value as int) + " vs "@ + dec_signed(
        -(1i64 << ((r.6 - 1) as u8)),
    ) + ".."@ + dec_signed((1i64 << ((r.6 - 1) as u8)) - 1)
}

/// The label of a duplicate: the object's source, `|`, the name.
pub open spec fn duplicate_of(source: Seq<char>, name: Seq<char>) -> LinkFault {
    LinkFault::Duplicate(source + "|"@ + name)
}

/// The first `n` BSS entries of an object added, each refused when its name is taken.
pub open spec fn added_bss(l: LinkerView, source: Seq<char>, entries: Seq<(u32, u32, Seq<char>)>, n: nat) -> (LinkerView, Option<LinkFault>)
    decreases n,
{
    if n == 0 || n > entries.len() {
        (l, None)
    } else {
        let (l1, f) = added_bss(l, source, entries, (n - 1) as nat);
        if f is Some {
            (l1, f)
        } else if label_taken(l1, entries[n - 1].2) {
            (l1, Some(duplicate_of(source, entries[n - 1].2)))
        } else {
            (LinkerView { bss: l1.bss.push(entries[n - 1]), ..l1 }, None)
        }
    }
}

/// The first `n` symbols of an object added, moved up by `offset`.
pub open spec fn added_symbols(l: LinkerView, source: Seq<char>, entries: Seq<(u32, Seq<char>)>, offset: int, n: nat) -> (LinkerView, Option<LinkFault>)
    decreases n,
{
    if n == 0 || n > entries.len() {
        (l, None)
    } else {
        let (l1, f) = added_symbols(l, source, entries, offset, (n - 1) as nat);
        if f is Some {
            (l1, f)
        } else if label_taken(l1, entries[n - 1].1) {
            (l1, Some(duplicate_of(source, entries[n - 1].1)))
        } else if entries[n - 1].0 + offset > u32::MAX {
            (l1, Some(LinkFault::Range(cannot_apply())))
        } else {
            (LinkerView { symbols: l1.symbols.push(((entries[n - 1].0 + offset) as u32, entries[n - 1].1)), ..l1 }, None)
        }
    }
}

/// A relocation moved up by `offset`.
pub open spec fn moved_relocation(r: RelocationFields, offset: int) -> RelocationFields {
    ((r.0 + offset) as u32, r.1, r.2, r.3, r.4, r.5, r.6, r.7)
}

/// The first `n` relocations of an object added, moved up by `offset`.
pub open spec fn added_relocations(l: LinkerView, entries: Seq<RelocationFields>, offset: int, n: nat) -> (LinkerView, Option<LinkFault>)
    decreases n,
{
    if n == 0 || n > entries.len() {
        (l, None)
    } else {
        let (l1, f) = added_relocations(l, entries, offset, (n - 1) as nat);
        if f is Some {
            (l1, f)
        } else if entries[n - 1].0 + offset > u32::MAX {
            (l1, Some(LinkFault::Range(cannot_apply())))
        } else {
            (LinkerView { relocations: l1.relocations.push(moved_relocation(entries[n - 1], offset)), ..l1 }, None)
        }
    }
}

/// Adding an object: its bytes go after the text so far, padded to a word;
/// then its BSS entries, its symbols moved by the old text length, and its
/// relocations moved likewise. A taken name stops the addition, reported with
/// the object's source.
pub open spec fn added_object(l: LinkerView, source: Seq<char>, o: ObjectValue) -> (LinkerView, Option<LinkFault>) {
    let offset = l.text.len() as int;
    let joined = l.text + o.bytes;
    let text = joined + Seq::new((word_aligned(joined.len() as int) - joined.len()) as nat, |i: int| 0u8);
    let l1 = LinkerView { text, ..l };
    let (l2, f2) = added_bss(l1, source, o.bss, o.bss.len());
    if f2 is Some {
        (l2, f2)
    } else {
        let (l3, f3) = added_symbols(l2, source, o.symbols, offset, o.symbols.len());
        if f3 is Some {
            (l3, f3)
        } else {
            added_relocations(l3, o.relocations, offset, o.relocations.len())
        }
    }
}

/// An offset rounded up to a multiple of a nonzero `alignment`.
pub open spec fn aligned_to(at: int, alignment: u32) -> int {
    if at % (alignment as int) != 0 {
        at + (alignment - at % (alignment as int))
    } else {
        at
    }
}

/// The first `n` BSS entries placed after the sections, each at the next
/// multiple of its own alignment, as symbols; `None` when one of them has
/// alignment zero.
pub open spec fn bss_placed(l: LinkerView, start: int, n: nat) -> Option<(Seq<(u32, Seq<char>)>, int)>
    decreases n,
{
    if n == 0 || n > l.bss.len() {
        Some((l.symbols, start))
    } else {
        match bss_placed(l, start, (n - 1) as nat) {
            None => None,
            Some((symbols, at)) => if l.bss[n - 1].0 == 0 {
                None
            } else {
                let here = aligned_to(at, l.bss[n - 1].0);
                Some((symbols.push((here as u32, l.bss[n - 1].2)), here + l.bss[n - 1].1))
            },
        }
    }
}

/// The message for a BSS entry with alignment zero.
pub open spec fn zero_alignment() -> Seq<char> {
    "Invalid alignment: 0"@
}

/// Where BSS placement starts: after the text, read-only data and data, each word aligned.
pub open spec fn bss_start(l: LinkerView) -> int {
    word_aligned(word_aligned(word_aligned(l.text.len() as int) + l.rodata.len()) + l.data.len())
}

/// The symbols after the BSS entries are placed.
pub open spec fn with_bss_symbols(l: LinkerView) -> Option<LinkerView> {
    match bss_placed(l, bss_start(l), l.bss.len()) {
        None => None,
        Some((symbols, _)) => Some(LinkerView { symbols, ..l }),
    }
}

/// Whether a relocation's shifts and width are ones the linker can apply.
pub open spec fn relocation_shape_ok(r: RelocationFields) -> bool {
    &&& r.5 < 64
    &&& r.6 <= 62
    &&& (r.4 == RelocationSign::Signed ==> r.6 >= 1)
    &&& r.7 < 32
}

/// The symbol's address plus the addend, less the patch address for a relative relocation.
pub open spec fn target_of(r: RelocationFields, symbol_offset: u32) -> i64 {
    if r.3 == RelocationBase::Relative {
        (symbol_offset + r.2 - r.0) as i64
    } else {
        (symbol_offset + r.2) as i64
    }
}

/// The target shifted right by the value shift, sign bits shifting in.
pub open spec fn shifted_target(r: RelocationFields, symbol_offset: u32) -> i64 {
    target_of(r, symbol_offset) >> r.5
}

/// Whether a signed relocation's value fits its width; unsigned ones are not checked.
pub open spec fn in_range(r: RelocationFields, value: i64) -> bool {
    r.4 == RelocationSign::Signed ==> (-(1i64 << ((r.6 - 1) as u8)) <= value <= (1i64 << ((r.6 - 1) as u8)) - 1)
}

/// A mask of the low `width` bits.
pub open spec fn low_mask(width: u8) -> i64 {
    ((1i64 << width) - 1) as i64
}

/// The low `width` bits of the value, moved up by the field shift.
pub open spec fn field_bits(r: RelocationFields, value: i64) -> u32 {
    ((value & low_mask(r.6)) << r.7) as u32
}

/// The bits of the patched word outside the field.
pub open spec fn keep_bits(r: RelocationFields) -> u32 {
    !(((low_mask(r.6) as u32) << r.7) as u32)
}

/// The big-endian word at `at`.
pub open spec fn word_at(text: Seq<u8>, at: int) -> u32 {
    be_word32(text[at], text[at + 1], text[at + 2], text[at + 3])
}

/// `text` with the big-endian word `w` at `at`.
pub open spec fn with_word(text: Seq<u8>, at: int, w: u32) -> Seq<u8> {
    text.update(at, (w / 0x100_0000) as u8).update(at + 1, (w / 0x1_0000 % 0x100) as u8).update(at + 2, (w / 0x100 % 0x100) as u8).update(
        at + 3,
        (w % 0x100) as u8,
    )
}

/// The index of the first symbol named `name`.
pub open spec fn first_symbol(symbols: Seq<(u32, Seq<char>)>, name: Seq<char>) -> Option<int> {
    if exists|i: int| 0 <= i < symbols.len() && #[trigger] symbols[i].1 == name {
        let i = choose|i: int|
            0 <= i < symbols.len() && #[trigger] symbols[i].1 == name && (forall|k: int| 0 <= k < i ==> symbols[k].1 != name);
        Some(i)
    } else {
        None
    }
}

/// The text after one relocation is applied, or why it could not be.
pub open spec fn relocation_step(t: Seq<u8>, symbols: Seq<(u32, Seq<char>)>, r: RelocationFields) -> Result<Seq<u8>, LinkFault> {
    match first_symbol(symbols, r.1) {
        None => Err(LinkFault::Unknown(r.1)),
        Some(i) => if !relocation_shape_ok(r) {
            Err(LinkFault::Range(cannot_apply()))
        } else {
            let value = shifted_target(r, symbols[i].0);
            if !in_range(r, value) {
                Err(LinkFault::Range(range_text(r, value)))
            } else if r.0 + 4 > t.len() {
                Err(LinkFault::Range(cannot_apply()))
            } else {
                Ok(with_word(t, r.0 as int, (word_at(t, r.0 as int) & keep_bits(r)) | field_bits(r, value)))
            }
        },
    }
}

/// The text after the first `n` relocations are applied, or why one could not be.
pub open spec fn relocated(text: Seq<u8>, symbols: Seq<(u32, Seq<char>)>, rels: Seq<RelocationFields>, n: nat) -> Result<Seq<u8>, LinkFault>
    decreases n,
{
    if n == 0 || n > rels.len() {
        Ok(text)
    } else {
        match relocated(text, symbols, rels, (n - 1) as nat) {
            Err(f) => Err(f),
            Ok(t) => relocation_step(t, symbols, rels[n - 1]),
        }
    }
}

/// Links everything added: places the BSS entries, applies the relocations to
/// the text, and gives the image: text, read-only data and data.
pub open spec fn linked(l: LinkerView) -> Result<(LinkerView, Seq<u8>), LinkFault> {
    match with_bss_symbols(l) {
        None => Err(LinkFault::Range(zero_alignment())),
        Some(l1) => match relocated(l1.text, l1.symbols, l1.relocations, l1.relocations.len()) {
            Err(f) => Err(f),
            Ok(text) => Ok((LinkerView { text, ..l1 }, text + l1.rodata + l1.data)),
        },
    }
}

/// The error a fault is reported as.
pub open spec fn link_fault_reported(f: LinkFault, e: LinkerError) -> bool {
    match f {
        LinkFault::Object => e is ObjectError,
        LinkFault::Duplicate(name) => e matches LinkerError::DuplicateLabel(m) && m@ == "Duplicated Symbol: "@ + name,
        LinkFault::Unknown(name) => e matches LinkerError::UnknownLabel(m) && m@ == "Unable to link undeclared label: "@ + name,
        LinkFault::Range(msg) => e matches LinkerError::InvalidRange(m) && m@ == msg,
    }
}

/// A linker: sections and tables gathered from objects.
pub struct Linker {
    text: Vec<u8>,
    rodata: Vec<u8>,
    data: Vec<u8>,
    bss: Vec<Bss>,
    symbols: Vec<Symbol>,
    relocations: Vec<Relocation>,
}

impl View for Linker {
    type V = LinkerView;

    closed spec fn view(&self) -> LinkerView {
        LinkerView {
            text: self.text@,
            rodata: self.rodata@,
            data: self.data@,
            bss: self.bss@.map_values(|b: Bss| bss_value(b)),
            symbols: self.symbols@.map_values(|s: Symbol| symbol_value(s)),
            relocations: self.relocations@.map_values(|r: Relocation| fields_of(r)),
        }
    }
}

fn message_with(prefix: &str, name: &String) -> (r: String)
    ensures
        r@ == prefix@ + name@,
{
    let mut out: Vec<char> = Vec::new();
    push_str(&mut out, prefix);
    push_str(&mut out, name.as_str());
    string_from_chars(out.as_slice())
}

fn duplicate_error(source: &str, label: &String) -> (e: LinkerError)
    ensures
        link_fault_reported(duplicate_of(source@, label@), e),
{
    let mut out: Vec<char> = Vec::new();
    push_str(&mut out, "Duplicated Symbol: ");
    push_str(&mut out, source);
    push_str(&mut out, "|");
    push_str(&mut out, label.as_str());
    assert(out@ =~= "Duplicated Symbol: "@ + (source@ + "|"@ + label@));
    LinkerError::DuplicateLabel(string_from_chars(out.as_slice()))
}

fn range_error(width: u8, value: i64, min: i64, max: i64) -> (e: LinkerError)
    requires
        value > i64::MIN,
        min > i64::MIN,
        max > i64::MIN,
    ensures
        e matches LinkerError::InvalidRange(m) && m@ == "Invalid range for width "@ + dec_digits(width as nat) + " detected: "@
            + dec_signed(value as int) + " vs "@ + dec_signed(min as int) + ".."@ + dec_signed(max as int),
{
    let mut out: Vec<char> = Vec::new();
    push_str(&mut out, "Invalid range for width ");
    push_decimal(&mut out, width as u128);
    push_str(&mut out, " detected: ");
    push_signed_decimal(&mut out, value);
    push_str(&mut out, " vs ");
    push_signed_decimal(&mut out, min);
    push_str(&mut out, "..");
    push_signed_decimal(&mut out, max);
    assert(out@ =~= "Invalid range for width "@ + dec_digits(width as nat) + " detected: "@ + dec_signed(value as int) + " vs "@
        + dec_signed(min as int) + ".."@ + dec_signed(max as int));
    LinkerError::InvalidRange(string_from_chars(out.as_slice()))
}

fn shape_error() -> (e: LinkerError)
    ensures
        e matches LinkerError::InvalidRange(m) && m@ == cannot_apply(),
{
    let mut out: Vec<char> = Vec::new();
    push_str(&mut out, "Relocation cannot be applied");
    assert(out@ =~= cannot_apply());
    LinkerError::InvalidRange(string_from_chars(out.as_slice()))
}

impl Linker {
    pub fn new() -> (l: Self)
        ensures
            l@ == (LinkerView {
                text: Seq::empty(),
                rodata: Seq::empty(),
                data: Seq::empty(),
                bss: Seq::empty(),
                symbols: Seq::empty(),
                relocations: Seq::empty(),
            }),
    {
        let l = Self {
            text: Vec::new(),
            rodata: Vec::new(),
            data: Vec::new(),
            bss: Vec::new(),
            symbols: Vec::new(),
            relocations: Vec::new(),
        };
        assert(l@.bss =~= Seq::empty());
        assert(l@.symbols =~= Seq::empty());
        assert(l@.relocations =~= Seq::empty());
        l
    }

    /// Whether a symbol or BSS entry already has the name `label`.
    fn check_duplicate_label(&self, source: &str, label: &String) -> (r: Result<(), LinkerError>)
        ensures
            label_taken(self@, label@) ==> (r matches Err(e) && link_fault_reported(duplicate_of(source@, label@), e)),
            !label_taken(self@, label@) ==> r is Ok,
    {
        let mut i: usize = 0;
        while i < self.symbols.len()
            invariant
                i <= self.symbols@.len(),
                forall|k: int| 0 <= k < i ==> #[trigger] self@.symbols[k].1 != label@,
            decreases self.symbols@.len() - i,
        {
            if self.symbols[i].name == *label {
                assert(self@.symbols[i as int].1 == label@);
                return Err(duplicate_error(source, label));
            }
            i += 1;
        }
        let mut j: usize = 0;
        while j < self.bss.len()
            invariant
                j <= self.bss@.len(),
                forall|k: int| 0 <= k < self@.symbols.len() ==> #[trigger] self@.symbols[k].1 != label@,
                forall|k: int| 0 <= k < j ==> #[trigger] self@.bss[k].2 != label@,
            decreases self.bss@.len() - j,
        {
            if self.bss[j].name == *label {
                assert(self@.bss[j as int].2 == label@);
                return Err(duplicate_error(source, label));
            }
            j += 1;
        }
        Ok(())
    }

    /// Links what was added: places the BSS entries as symbols after the
    /// sections, applies every relocation to the text, and gives the image:
    /// text, read-only data and data.
    pub fn link(&mut self) -> (r: Result<Vec<u8>, LinkerError>)
        ensures
            match linked(old(self)@) {
                Ok((l, image)) => (r matches Ok(bytes) && bytes@ == image) && final(self)@ == l,
                Err(f) => r matches Err(e) && link_fault_reported(f, e),
            },
    {
        self.map_bss_to_symbol()?;
        self.apply_relocations()?;
        let mut image: Vec<u8> = Vec::new();
        image.extend_from_slice(self.text.as_slice());
        image.extend_from_slice(self.rodata.as_slice());
        image.extend_from_slice(self.data.as_slice());
        assert(image@ =~= self.text@ + self.rodata@ + self.data@);
        Ok(image)
    }

    fn map_bss_to_symbol(&mut self) -> (r: Result<(), LinkerError>)
        ensures
            match with_bss_symbols(old(self)@) {
                Some(l) => r is Ok && final(self)@ == l,
                None => r matches Err(e) && link_fault_reported(LinkFault::Range(zero_alignment()), e),
            },
    {
        let mut offset: u128 = word_align(word_align(word_align(self.text.len() as u128) + self.rodata.len() as u128)
            + self.data.len() as u128);
        assert(offset == bss_start(old(self)@));
        let mut k: usize = 0;
        while k < self.bss.len()
            invariant
                k <= self.bss@.len(),
                bss_placed(old(self)@, bss_start(old(self)@), k as nat) == Some::<(Seq<(u32, Seq<char>)>, int)>(
                    (self@.symbols, offset as int),
                ),
                self@ == (LinkerView { symbols: self@.symbols, ..old(self)@ }),
                offset <= bss_start(old(self)@) + k * 0x2_0000_0000,
                bss_start(old(self)@) <= 0x4_0000_0000_0000_0000,
            decreases self.bss@.len() - k,
        {
            let entry = &self.bss[k];
            let alignment = entry.alignment;
            assert(old(self)@.bss[k as int].0 == alignment);
            if alignment == 0 {
                proof {
                    lemma_bss_placed_stays_none(old(self)@, bss_start(old(self)@), (k + 1) as nat, old(self)@.bss.len());
                }
                let mut out: Vec<char> = Vec::new();
                push_str(&mut out, "Invalid alignment: 0");
                return Err(LinkerError::InvalidRange(string_from_chars(out.as_slice())));
            }
            let ragged = offset % (alignment as u128);
            if ragged != 0 {
                offset = offset + (alignment as u128 - ragged);
            }
            assert(offset == aligned_to(bss_placed(old(self)@, bss_start(old(self)@), k as nat)->Some_0.1, alignment));
            let placed = Symbol { offset: offset as u32, name: entry.name.clone() };
            let ghost before = self@.symbols;
            self.symbols.push(placed);
            assert(self@.symbols =~= before.push(((offset as int) as u32, old(self)@.bss[k as int].2)));
            offset = offset + entry.size as u128;
            k += 1;
        }
        assert(self@ == (LinkerView { symbols: self@.symbols, ..old(self)@ }));
        Ok(())
    }

    #[verifier::rlimit(80)]
    fn apply_relocations(&mut self) -> (r: Result<(), LinkerError>)
        ensures
            match relocated(old(self)@.text, old(self)@.symbols, old(self)@.relocations, old(self)@.relocations.len()) {
                Ok(text) => r is Ok && final(self)@ == (LinkerView { text, ..old(self)@ }),
                Err(f) => r matches Err(e) && link_fault_reported(f, e),
            },
    {
        let ghost start = old(self)@;
        let mut k: usize = 0;
        while k < self.relocations.len()
            invariant
                k <= self.relocations@.len(),
                start == old(self)@,
                relocated(start.text, start.symbols, start.relocations, k as nat) == Ok::<Seq<u8>, LinkFault>(self@.text),
                self@ == (LinkerView { text: self@.text, ..start }),
            decreases self.relocations@.len() - k,
        {
            let result = self.apply_relocation(k);
            if let Err(e) = result {
                proof {
                    lemma_relocated_stays_failed(start.text, start.symbols, start.relocations, (k + 1) as nat, start.relocations.len());
                }
                return Err(e);
            }
            k += 1;
        }
        Ok(())
    }

    /// Applies relocation `k` to the text.
    fn apply_relocation(&mut self, k: usize) -> (r: Result<(), LinkerError>)
        requires
            k < old(self)@.relocations.len(),
        ensures
            match relocation_step(old(self)@.text, old(self)@.symbols, old(self)@.relocations[k as int]) {
                Ok(text) => r is Ok && final(self)@ == (LinkerView { text, ..old(self)@ }),
                Err(f) => (r matches Err(e) && link_fault_reported(f, e)) && final(self)@ == old(self)@,
            },
    {
        let ghost before = self@.text;
        let rel = &self.relocations[k];
        assert(old(self)@.relocations[k as int] == fields_of(*rel));
        let index = match find_symbol(&self.symbols, &rel.symbol) {
            Some(i) => i,
            None => return Err(LinkerError::UnknownLabel(message_with("Unable to link undeclared label: ", &rel.symbol))),
        };
        if !(rel.value_shift < 64 && rel.width <= 62 && (rel.sign == RelocationSign::Unsigned || rel.width >= 1)
            && rel.field_shift < 32) {
            return Err(shape_error());
        }
        let target = calculate_target_addr(rel, self.symbols[index].offset);
        proof {
            let r = old(self)@.relocations[k as int];
            let symbols = old(self)@.symbols;
            assert(first_symbol(symbols, r.1) == Some(index as int));
            assert(symbols[index as int].0 == self.symbols@[index as int].offset);
            assert(relocation_shape_ok(r));
        }
        let shifted = match target_shift(target, rel) {
            Ok(v) => v,
            Err(e) => return Err(e),
        };
        let patch = rel.patch_offset as usize;
        if patch > self.text.len() || self.text.len() - patch < 4 {
            return Err(shape_error());
        }
        let (field, keep) = target_field_mask(shifted, rel);
        let word = combine_word(self.text[patch], self.text[patch + 1], self.text[patch + 2], self.text[patch + 3]);
        let patched = (word & keep) | field;
        self.text.set(patch, (patched / 0x100_0000) as u8);
        self.text.set(patch + 1, (patched / 0x1_0000 % 0x100) as u8);
        self.text.set(patch + 2, (patched / 0x100 % 0x100) as u8);
        self.text.set(patch + 3, (patched % 0x100) as u8);
        assert(self@.text =~= with_word(before, patch as int, patched));
        proof {
            let r = old(self)@.relocations[k as int];
            let symbols = old(self)@.symbols;
            assert(first_symbol(symbols, r.1) == Some(index as int));
            assert(symbols[index as int].0 == self.symbols@[index as int].offset);
            assert(relocation_shape_ok(r));
            assert(shifted == shifted_target(r, symbols[index as int].0));
            assert(word == word_at(before, r.0 as int));
        }
        Ok(())
    }

    /// Adds an object read from its bytes: its bytes go after the text, padded
    /// to a word; its BSS entries, symbols and relocations follow the ones
    /// added before, symbols and relocations moved by the old text length.
    pub fn add(&mut self, source: &str, data: &[u8]) -> (r: Result<(), LinkerError>)
        ensures
            match parse_object(data@) {
                Err(f) => (r matches Err(LinkerError::ObjectError(m)) && exists|e: VoError|
                    object_fault_reported(f, e) && m@ == vo_error_text(e)) && final(self)@ == old(self)@,
                Ok(o) => match added_object(old(self)@, source@, o) {
                    (l, None) => r is Ok && final(self)@ == l,
                    (l, Some(f)) => (r matches Err(e) && link_fault_reported(f, e)) && final(self)@ == l,
                },
            },
    {
        let current = match ObjectFile::read(data) {
            Ok(o) => o,
            Err(e) => {
                let m = e.to_string();
                assert(object_fault_reported(parse_object(data@)->Err_0, e) && m@ == vo_error_text(e));
                return Err(LinkerError::ObjectError(m));
            },
        };
        let ghost o = crate::vo::object_file::object_value(current);
        let offset = self.text.len();
        let ghost joined = self@.text + o.bytes;
        let mut i: usize = 0;
        while i < current.bytes.len()
            invariant
                i <= current.bytes@.len(),
                o == crate::vo::object_file::object_value(current),
                self@ == (LinkerView { text: old(self)@.text + o.bytes.take(i as int), ..old(self)@ }),
            decreases current.bytes@.len() - i,
        {
            self.text.push(current.bytes[i]);
            assert(self.text@ =~= old(self)@.text + o.bytes.take(i + 1));
            i += 1;
        }
        assert(o.bytes.take(o.bytes.len() as int) =~= o.bytes);
        let ghost padding = (word_aligned(joined.len() as int) - joined.len()) as nat;
        while self.text.len() % 4 != 0
            invariant
                joined.len() <= self.text@.len() <= word_aligned(joined.len() as int),
                self@ == (LinkerView { text: joined + Seq::new((self.text@.len() - joined.len()) as nat, |k: int| 0u8), ..old(self)@ }),
            decreases word_aligned(joined.len() as int) - self.text@.len(),
        {
            self.text.push(0);
            assert(self.text@ =~= joined + Seq::new((self.text@.len() - joined.len()) as nat, |k: int| 0u8));
        }
        let ghost l1 = self@;
        assert(l1 == (LinkerView { text: joined + Seq::new(padding, |k: int| 0u8), ..old(self)@ }));
        let ghost parsed = parse_object(data@);
        assert(parsed == Ok::<ObjectValue, crate::vo::object_file::ObjectFault>(o));
        let mut k: usize = 0;
        while k < current.bss.len()
            invariant
                k <= current.bss@.len(),
                o == crate::vo::object_file::object_value(current),
                parsed == parse_object(data@),
                parsed == Ok::<ObjectValue, crate::vo::object_file::ObjectFault>(o),
                l1 == (LinkerView { text: joined + Seq::new(padding, |k: int| 0u8), ..old(self)@ }),
                joined == old(self)@.text + o.bytes,
                padding == (word_aligned(joined.len() as int) - joined.len()) as nat,
                added_bss(l1, source@, o.bss, k as nat) == (self@, None::<LinkFault>),
            decreases current.bss@.len() - k,
        {
            let entry = &current.bss[k];
            assert(o.bss[k as int] == bss_value(*entry));
            if let Err(e) = self.check_duplicate_label(source, &entry.name) {
                proof {
                    lemma_added_bss_stays_failed(l1, source@, o.bss, (k + 1) as nat, o.bss.len());
                }
                return Err(e);
            }
            let copy = Bss { alignment: entry.alignment, size: entry.size, name: entry.name.clone() };
            self.bss.push(copy);
            assert(self@.bss =~= added_bss(l1, source@, o.bss, k as nat).0.bss.push(o.bss[k as int]));
            k += 1;
        }
        let ghost l2 = self@;
        let mut k: usize = 0;
        while k < current.symbols.len()
            invariant
                k <= current.symbols@.len(),
                o == crate::vo::object_file::object_value(current),
                offset == old(self)@.text.len(),
                parsed == parse_object(data@),
                parsed == Ok::<ObjectValue, crate::vo::object_file::ObjectFault>(o),
                l1 == (LinkerView { text: joined + Seq::new(padding, |k: int| 0u8), ..old(self)@ }),
                joined == old(self)@.text + o.bytes,
                padding == (word_aligned(joined.len() as int) - joined.len()) as nat,
                added_bss(l1, source@, o.bss, o.bss.len()) == (l2, None::<LinkFault>),
                added_symbols(l2, source@, o.symbols, offset as int, k as nat) == (self@, None::<LinkFault>),
            decreases current.symbols@.len() - k,
        {
            let entry = &current.symbols[k];
            assert(o.symbols[k as int] == symbol_value(*entry));
            if let Err(e) = self.check_duplicate_label(source, &entry.name) {
                proof {
                    lemma_added_symbols_stays_failed(l2, source@, o.symbols, offset as int, (k + 1) as nat, o.symbols.len());
                }
                return Err(e);
            }
            if offset > 0xFFFF_FFFF || entry.offset as u64 + offset as u64 > 0xFFFF_FFFF {
                proof {
                    lemma_added_symbols_stays_failed(l2, source@, o.symbols, offset as int, (k + 1) as nat, o.symbols.len());
                }
                return Err(shape_error());
            }
            let moved = Symbol { offset: entry.offset + offset as u32, name: entry.name.clone() };
            self.symbols.push(moved);
            assert(self@.symbols =~= added_symbols(l2, source@, o.symbols, offset as int, k as nat).0.symbols.push(
                ((o.symbols[k as int].0 + offset) as u32, o.symbols[k as int].1),
            ));
            k += 1;
        }
        let ghost l3 = self@;
        let mut k: usize = 0;
        while k < current.relocations.len()
            invariant
                k <= current.relocations@.len(),
                o == crate::vo::object_file::object_value(current),
                offset == old(self)@.text.len(),
                parsed == parse_object(data@),
                parsed == Ok::<ObjectValue, crate::vo::object_file::ObjectFault>(o),
                l1 == (LinkerView { text: joined + Seq::new(padding, |k: int| 0u8), ..old(self)@ }),
                joined == old(self)@.text + o.bytes,
                padding == (word_aligned(joined.len() as int) - joined.len()) as nat,
                added_bss(l1, source@, o.bss, o.bss.len()) == (l2, None::<LinkFault>),
                added_symbols(l2, source@, o.symbols, offset as int, o.symbols.len()) == (l3, None::<LinkFault>),
                added_relocations(l3, o.relocations, offset as int, k as nat) == (self@, None::<LinkFault>),
            decreases current.relocations@.len() - k,
        {
            let entry = &current.relocations[k];
            assert(o.relocations[k as int] == fields_of(*entry));
            if offset > 0xFFFF_FFFF || entry.patch_offset as u64 + offset as u64 > 0xFFFF_FFFF {
                proof {
                    lemma_added_relocations_stays_failed(l3, o.relocations, offset as int, (k + 1) as nat, o.relocations.len());
                }
                return Err(shape_error());
            }
            let moved = Relocation {
                patch_offset: entry.patch_offset + offset as u32,
                symbol: entry.symbol.clone(),
                addend: entry.addend,
                base: entry.base,
                sign: entry.sign,
                value_shift: entry.value_shift,
                width: entry.width,
                field_shift: entry.field_shift,
            };
            self.relocations.push(moved);
            assert(self@.relocations =~= added_relocations(l3, o.relocations, offset as int, k as nat).0.relocations.push(
                moved_relocation(o.relocations[k as int], offset as int),
            ));
            k += 1;
        }
        Ok(())
    }
}

proof fn lemma_added_bss_stays_failed(l: LinkerView, source: Seq<char>, entries: Seq<(u32, u32, Seq<char>)>, k: nat, n: nat)
    requires
        k <= n <= entries.len(),
        added_bss(l, source, entries, k).1 is Some,
    ensures
        added_bss(l, source, entries, n) == added_bss(l, source, entries, k),
    decreases n - k,
{
    if k < n {
        lemma_added_bss_stays_failed(l, source, entries, k, (n - 1) as nat);
    }
}

proof fn lemma_added_symbols_stays_failed(l: LinkerView, source: Seq<char>, entries: Seq<(u32, Seq<char>)>, offset: int, k: nat, n: nat)
    requires
        k <= n <= entries.len(),
        added_symbols(l, source, entries, offset, k).1 is Some,
    ensures
        added_symbols(l, source, entries, offset, n) == added_symbols(l, source, entries, offset, k),
    decreases n - k,
{
    if k < n {
        lemma_added_symbols_stays_failed(l, source, entries, offset, k, (n - 1) as nat);
    }
}

proof fn lemma_bss_placed_stays_none(l: LinkerView, start: int, k: nat, n: nat)
    requires
        k <= n <= l.bss.len(),
        bss_placed(l, start, k) is None,
    ensures
        bss_placed(l, start, n) is None,
    decreases n - k,
{
    if k < n {
        lemma_bss_placed_stays_none(l, start, k, (n - 1) as nat);
    }
}

proof fn lemma_added_relocations_stays_failed(l: LinkerView, entries: Seq<RelocationFields>, offset: int, k: nat, n: nat)
    requires
        k <= n <= entries.len(),
        added_relocations(l, entries, offset, k).1 is Some,
    ensures
        added_relocations(l, entries, offset, n) == added_relocations(l, entries, offset, k),
    decreases n - k,
{
    if k < n {
        lemma_added_relocations_stays_failed(l, entries, offset, k, (n - 1) as nat);
    }
}

proof fn lemma_relocated_stays_failed(text: Seq<u8>, symbols: Seq<(u32, Seq<char>)>, rels: Seq<RelocationFields>, k: nat, n: nat)
    requires
        k <= n <= rels.len(),
        relocated(text, symbols, rels, k) is Err,
    ensures
        relocated(text, symbols, rels, n) == relocated(text, symbols, rels, k),
    decreases n - k,
{
    if k < n {
        lemma_relocated_stays_failed(text, symbols, rels, k, (n - 1) as nat);
    }
}

/// A length rounded up to a multiple of four.
fn word_align(len: u128) -> (r: u128)
    requires
        len <= 0x4_0000_0000_0000_0000_0000_0000,
    ensures
        r == word_aligned(len as int),
{
    let ragged = len % 4;
    if ragged != 0 {
        len + (4 - ragged)
    } else {
        len
    }
}

/// The index of the first symbol named `name`.
fn find_symbol(symbols: &Vec<Symbol>, name: &String) -> (r: Option<usize>)
    ensures
        r matches Some(i) ==> i < symbols@.len() && first_symbol(symbols@.map_values(|s: Symbol| symbol_value(s)), name@)
            == Some(i as int),
        r is None ==> first_symbol(symbols@.map_values(|s: Symbol| symbol_value(s)), name@) is None,
{
    let ghost view = symbols@.map_values(|s: Symbol| symbol_value(s));
    let mut i: usize = 0;
    while i < symbols.len()
        invariant
            i <= symbols@.len(),
            view == symbols@.map_values(|s: Symbol| symbol_value(s)),
            forall|k: int| 0 <= k < i ==> #[trigger] view[k].1 != name@,
        decreases symbols@.len() - i,
    {
        if symbols[i].name == *name {
            assert(view[i as int].1 == name@);
            let ghost j = choose|j: int|
                0 <= j < view.len() && #[trigger] view[j].1 == name@ && (forall|k: int| 0 <= k < j ==> view[k].1 != name@);
            assert(j == i) by {
                if j < i {
                    assert(view[j].1 != name@);
                } else if j > i {
                    assert(view[i as int].1 != name@);
                }
            }
            assert(first_symbol(view, name@) == Some(i as int));
            return Some(i);
        }
        i += 1;
    }
    None
}

/// The symbol's address plus the addend, less the patch address for a relative relocation.
fn calculate_target_addr(relocation: &Relocation, symbol_offset: u32) -> (r: i64)
    ensures
        r == target_of(fields_of(*relocation), symbol_offset),
{
    let mut target = symbol_offset as i64 + relocation.addend as i64;
    if relocation.base == RelocationBase::Relative {
        target = target - relocation.patch_offset as i64;
    }
    target
}

/// The target shifted right by the value shift; a signed relocation's value
/// must fit its width.
fn target_shift(target: i64, relocation: &Relocation) -> (r: Result<i64, LinkerError>)
    requires
        relocation.value_shift < 64,
        1 <= relocation.width <= 62 || (relocation.sign == RelocationSign::Unsigned && relocation.width <= 62),
        -0x2_0000_0000 <= target <= 0x2_0000_0000,
    ensures
        match r {
            Ok(v) => v == target >> relocation.value_shift && in_range(fields_of(*relocation), v),
            Err(e) => !in_range(fields_of(*relocation), target >> relocation.value_shift) && (e matches LinkerError::InvalidRange(m)
                && m@ == range_text(fields_of(*relocation), target >> relocation.value_shift)),
        },
{
    let shifted = target >> relocation.value_shift;
    proof {
        lemma_shift_right_bounds(target, relocation.value_shift);
    }
    if relocation.sign == RelocationSign::Signed {
        proof {
            lemma_one_shifted_bounds((relocation.width - 1) as u8);
        }
        let half = 1i64 << (relocation.width - 1);
        let min = -half;
        let max = half - 1;
        if shifted < min || shifted > max {
            return Err(range_error(relocation.width, shifted, min, max));
        }
    }
    Ok(shifted)
}

/// The value's low `width` bits moved to the field, and the mask that keeps
/// the rest of the word.
fn target_field_mask(target: i64, relocation: &Relocation) -> (r: (u32, u32))
    requires
        relocation.width <= 62,
        relocation.field_shift < 32,
    ensures
        r.0 == field_bits(fields_of(*relocation), target),
        r.1 == keep_bits(fields_of(*relocation)),
{
    proof {
        lemma_one_shifted_bounds(relocation.width);
    }
    let mask: i64 = (1i64 << relocation.width) - 1;
    let field = (#[verifier::truncate] (((target & mask) << relocation.field_shift) as u32));
    let keep = !((#[verifier::truncate] (mask as u32)) << relocation.field_shift);
    (field, keep)
}

proof fn lemma_one_shifted_bounds(w: u8)
    by (bit_vector)
    requires
        w <= 62,
    ensures
        1 <= (1i64 << w) <= 0x4000_0000_0000_0000i64,
{
}

proof fn lemma_shift_right_bounds(t: i64, s: u8)
    by (bit_vector)
    requires
        -0x2_0000_0000i64 <= t <= 0x2_0000_0000i64,
        s < 64,
    ensures
        -0x2_0000_0000i64 <= (t >> s) <= 0x2_0000_0000i64,
{
}

} // verus!
