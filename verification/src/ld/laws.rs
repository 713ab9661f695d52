//! What adding an object does to the linker's text and relocations.
use vstd::prelude::*;

use crate::vo::object_file::ObjectValue;
use crate::vo::relocation::RelocationFields;

use super::linker::{added_bss, added_object, added_relocations, added_symbols, word_aligned, LinkerView};

verus! {

proof fn lemma_bss_keeps_text_and_relocations(l: LinkerView, source: Seq<char>, entries: Seq<(u32, u32, Seq<char>)>, n: nat)
    ensures
        added_bss(l, source, entries, n).0.text == l.text,
        added_bss(l, source, entries, n).0.relocations == l.relocations,
    decreases n,
{
    if n > 0 && n <= entries.len() {
        lemma_bss_keeps_text_and_relocations(l, source, entries, (n - 1) as nat);
    }
}

proof fn lemma_symbols_keep_text_and_relocations(
    l: LinkerView,
    source: Seq<char>,
    entries: Seq<(u32, Seq<char>)>,
    offset: int,
    n: nat,
)
    ensures
        added_symbols(l, source, entries, offset, n).0.text == l.text,
        added_symbols(l, source, entries, offset, n).0.relocations == l.relocations,
    decreases n,
{
    if n > 0 && n <= entries.len() {
        lemma_symbols_keep_text_and_relocations(l, source, entries, offset, (n - 1) as nat);
    }
}

proof fn lemma_relocations_appended(l: LinkerView, entries: Seq<RelocationFields>, offset: int, n: nat)
    requires
        n <= entries.len(),
        0 <= offset,
        added_relocations(l, entries, offset, n).1 is None,
    ensures
        ({
            let r = added_relocations(l, entries, offset, n).0.relocations;
            &&& added_relocations(l, entries, offset, n).0.text == l.text
            &&& r.len() == l.relocations.len() + n
            &&& forall|i: int| 0 <= i < l.relocations.len() ==> #[trigger] r[i] == l.relocations[i]
            &&& forall|i: int|
                0 <= i < n ==> {
                    let moved = #[trigger] r[l.relocations.len() + i];
                    let e = entries[i];
                    &&& moved.0 == e.0 + offset
                    &&& moved.1 == e.1
                    &&& moved.2 == e.2
                    &&& moved.3 == e.3
                    &&& moved.4 == e.4
                    &&& moved.5 == e.5
                    &&& moved.6 == e.6
                    &&& moved.7 == e.7
                }
        }),
    decreases n,
{
    if n > 0 {
        lemma_relocations_appended(l, entries, offset, (n - 1) as nat);
        let before = added_relocations(l, entries, offset, (n - 1) as nat).0.relocations;
        let r = added_relocations(l, entries, offset, n).0.relocations;
        assert(r == before.push(super::linker::moved_relocation(entries[n - 1], offset)));
        assert(entries[n - 1].0 + offset <= u32::MAX);
    }
}

/// Adding an object lays its bytes down right after the text so far, and
/// every relocation it brings patches those bytes: its patch offset is its
/// offset in the object plus the length of the earlier text, and its other
/// fields are as the object gave them. Relocations added before stay as they
/// were.
pub proof fn lemma_added_relocations_patch_own_bytes(l: LinkerView, source: Seq<char>, o: ObjectValue)
    requires
        added_object(l, source, o).1 is None,
    ensures
        ({
            let l2 = added_object(l, source, o).0;
            &&& l2.text.len() == word_aligned((l.text.len() + o.bytes.len()) as int)
            &&& l2.text.subrange(0, l.text.len() as int) == l.text
            &&& l2.text.subrange(l.text.len() as int, (l.text.len() + o.bytes.len()) as int) == o.bytes
            &&& l2.relocations.len() == l.relocations.len() + o.relocations.len()
            &&& forall|i: int| 0 <= i < l.relocations.len() ==> #[trigger] l2.relocations[i] == l.relocations[i]
            &&& forall|i: int|
                0 <= i < o.relocations.len() ==> {
                    let moved = #[trigger] l2.relocations[l.relocations.len() + i];
                    let r = o.relocations[i];
                    &&& moved.0 == r.0 + l.text.len()
                    &&& moved.1 == r.1
                    &&& moved.2 == r.2
                    &&& moved.3 == r.3
                    &&& moved.4 == r.4
                    &&& moved.5 == r.5
                    &&& moved.6 == r.6
                    &&& moved.7 == r.7
                }
        }),
{
    let offset = l.text.len() as int;
    let joined = l.text + o.bytes;
    let text = joined + Seq::new((word_aligned(joined.len() as int) - joined.len()) as nat, |i: int| 0u8);
    let l1 = LinkerView { text, ..l };
    lemma_bss_keeps_text_and_relocations(l1, source, o.bss, o.bss.len());
    let l2 = added_bss(l1, source, o.bss, o.bss.len()).0;
    lemma_symbols_keep_text_and_relocations(l2, source, o.symbols, offset, o.symbols.len());
    let l3 = added_symbols(l2, source, o.symbols, offset, o.symbols.len()).0;
    lemma_relocations_appended(l3, o.relocations, offset, o.relocations.len());
    assert(text.subrange(0, l.text.len() as int) =~= l.text);
    assert(text.subrange(l.text.len() as int, (l.text.len() + o.bytes.len()) as int) =~= o.bytes);
}

} // verus!
