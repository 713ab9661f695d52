//! The assembler's tables hold each name at most once: a symbol, a BSS entry,
//! a constant or a mangled name is stored under its name, and storing it
//! again replaces it.
use vstd::prelude::*;

use super::state::{
    address_loaded, appended, branch_line, bss_assembled, constant_added, constant_loaded, data_assembled, flag_branch_line,
    labelled, line_assembled, mangled, nomangled, org_placed, placed, signed_appended, source_line, space_appended, stacked,
    string_appended, target_line, target_operand, text_assembled, then_append, unsigned_appended, with_mangle, with_symbol,
    aligned, RelocationTemplate, StateView,
};
use super::tables::{find_key, keys_of, keys_unique, lemma_find_key, lemma_inserted_keeps_keys_unique, lookup};
use crate::isa::Instruction;

verus! {

/// Each table of the state holds every name at most once.
pub open spec fn names_unique(s: StateView) -> bool {
    &&& keys_unique(keys_of(s.symbols))
    &&& keys_unique(keys_of(s.bss))
    &&& keys_unique(keys_of(s.constants))
    &&& keys_unique(keys_of(s.mangles))
}

/// The two states hold the same tables.
pub open spec fn same_tables(a: StateView, b: StateView) -> bool {
    &&& a.symbols == b.symbols
    &&& a.bss == b.bss
    &&& a.constants == b.constants
    &&& a.mangles == b.mangles
}

proof fn lemma_push_new_key<V>(t: Seq<(Seq<char>, V)>, key: Seq<char>, v: V)
    requires
        keys_unique(keys_of(t)),
        lookup(t, key) is None,
    ensures
        keys_unique(keys_of(t.push((key, v)))),
{
    lemma_find_key(keys_of(t), key);
    assert(keys_of(t.push((key, v))) =~= keys_of(t).push(key));
}

proof fn lemma_with_mangle(s: StateView, label: Seq<char>)
    requires
        names_unique(s),
    ensures
        names_unique(with_mangle(s, label)),
{
    if lookup(s.mangles, label) is None {
        lemma_push_new_key(s.mangles, label, super::state::mangle_of(s.filename, label));
    }
}

proof fn lemma_appended(s: StateView, i: Instruction)
    ensures
        same_tables(s, appended(s, i).0),
{
    reveal(appended);
}

proof fn lemma_then_append(r: (StateView, Result<(), super::state::PFault>), i: Instruction)
    ensures
        same_tables(r.0, then_append(r, i).0),
{
    lemma_appended(r.0, i);
}

proof fn lemma_stacked(s: StateView, regs: Seq<Seq<char>>, pop: bool)
    ensures
        same_tables(s, stacked(s, regs, pop).0),
    decreases regs.len(),
{
    if regs.len() > 0 {
        lemma_appended(s, Instruction::Lw { rd: 0, base: 14, offset: 0 });
        match super::lexer::reg_value(regs[0]) {
            None => {},
            Some(r) => {
                let first = appended(s, Instruction::Lw { rd: r, base: 14, offset: 0 });
                let second = appended(s, Instruction::Subi { rd: 14, ra: 14, imm: 4 });
                lemma_appended(s, Instruction::Lw { rd: r, base: 14, offset: 0 });
                lemma_appended(s, Instruction::Subi { rd: 14, ra: 14, imm: 4 });
                lemma_then_append(first, Instruction::Addi { rd: 14, ra: 14, imm: 4 });
                lemma_then_append(second, Instruction::Sw { rs: r, base: 14, offset: 0 });
                let a = if pop {
                    then_append(first, Instruction::Addi { rd: 14, ra: 14, imm: 4 })
                } else {
                    then_append(second, Instruction::Sw { rs: r, base: 14, offset: 0 })
                };
                lemma_stacked(a.0, regs.drop_first(), pop);
            },
        }
    }
}

proof fn lemma_placed(s: StateView, label: Seq<char>, name: Seq<char>, data: Seq<u8>)
    requires
        names_unique(s),
    ensures
        names_unique(placed(s, label, name, data)),
{
    lemma_inserted_keeps_keys_unique(s.symbols, label, (s.bytes.len() as u32, name));
}

proof fn lemma_target_operand(s: StateView, text: Seq<char>, min: int, max: int, t: RelocationTemplate)
    requires
        names_unique(s),
    ensures
        names_unique(target_operand(s, text, min, max, t).0),
{
    lemma_with_mangle(s, text);
}

proof fn lemma_labelled(s: StateView, label: Seq<char>)
    requires
        names_unique(s),
    ensures
        names_unique(labelled(s, label).0),
{
    lemma_with_mangle(s, label);
    let s1 = with_mangle(s, label);
    lemma_inserted_keeps_keys_unique(s1.symbols, label, (s1.bytes.len() as u32, mangled(s1, label)));
    assert(with_symbol(s1, label, s1.bytes.len() as u32).symbols == super::tables::inserted(
        s1.symbols,
        label,
        (s1.bytes.len() as u32, mangled(s1, label)),
    ));
}

proof fn lemma_numbers(s1: StateView, label: Seq<char>, name: Seq<char>, data: Seq<char>, bits: u8)
    requires
        names_unique(s1),
    ensures
        names_unique(signed_appended(s1, label, name, data, bits).0),
        names_unique(unsigned_appended(s1, label, name, data, bits).0),
{
    let a = aligned(s1, bits / 8).0;
    assert forall|v: u32| names_unique(#[trigger] placed(a, label, name, super::state::sized_bytes(v, bits))) by {
        lemma_placed(a, label, name, super::state::sized_bytes(v, bits));
    }
    lemma_with_mangle(a, data);
    let s2 = with_mangle(a, data);
    let rel = (a.bytes.len() as u32, mangled(s2, data), 0i32, crate::vo::RelocationBase::Absolute,
        crate::vo::RelocationSign::Unsigned, 0u8, 32u8, 0u8);
    lemma_placed(StateView { relocations: s2.relocations.push(rel), ..s2 }, label, name, super::state::sized_bytes(0, bits));
}

proof fn lemma_data_assembled(s: StateView, label: Seq<char>, format: Seq<char>, data: Seq<char>, data2: Seq<char>)
    requires
        names_unique(s),
    ensures
        names_unique(data_assembled(s, label, format, data, data2).0),
{
    lemma_with_mangle(s, label);
    let s1 = with_mangle(s, label);
    let name = mangled(s1, label);
    lemma_numbers(s1, label, name, data, 8);
    lemma_numbers(s1, label, name, data, 16);
    lemma_numbers(s1, label, name, data, 32);
    assert forall|c: Seq<u8>| names_unique(#[trigger] placed(s1, label, name, c)) by {
        lemma_placed(s1, label, name, c);
    }
    assert(names_unique(string_appended(s1, label, name, data, false).0));
    assert(names_unique(string_appended(s1, label, name, data, true).0));
    assert forall|a: u8, c: Seq<u8>| names_unique(#[trigger] placed(aligned(s1, a).0, label, name, c)) by {
        lemma_placed(aligned(s1, a).0, label, name, c);
    }
    assert(names_unique(space_appended(s1, label, name, data, data2).0));
}

proof fn lemma_text_assembled(s: StateView, t: Seq<Seq<char>>)
    requires
        names_unique(s),
    ensures
        names_unique(text_assembled(s, t).0),
{
    reveal(target_line);
    reveal(branch_line);
    reveal(flag_branch_line);
    reveal(constant_loaded);
    reveal(address_loaded);
    reveal(appended);
    let n = t.len();
    if n == 2 {
        lemma_target_operand(s, t[1], 0, super::forms::MAX_U12 as int, super::state::trap_template());
        lemma_target_operand(s, t[1], super::forms::MIN_I28 as int, super::forms::MAX_I28 as int, super::state::jump_template());
        lemma_target_operand(s, t[1], super::forms::MIN_I24 as int, super::forms::MAX_I24 as int, super::state::flag_branch_template());
    }
    if n == 4 {
        lemma_target_operand(s, t[3], super::forms::MIN_I16 as int, super::forms::MAX_I16 as int, super::state::branch_template());
    }
    if n == 3 {
        lemma_with_mangle(s, t[2]);
    }
    if n >= 1 {
        lemma_stacked(s, t.skip(1), false);
        lemma_stacked(s, t.skip(1), true);
    }
}

/// Assembling a line keeps each name at most once in every table of the
/// state: a symbol, BSS entry, constant or mangled name is added only under a
/// name the table lacks, or replaces the entry of that name.
pub proof fn lemma_source_line_keeps_names_unique(s: StateView, line: Seq<char>)
    requires
        names_unique(s),
    ensures
        names_unique(source_line(s, line).0),
{
    if let Some(l) = super::lexer::stripped_line(line) {
        let t = super::state::tokens(s.constants, l);
        let n = t.len();
        if n == 3 {
            lemma_inserted_keeps_keys_unique(s.constants, t[1], t[2]);
        }
        if n == 2 {
            if lookup(s.mangles, t[1]) is None {
                lemma_push_new_key(s.mangles, t[1], t[1]);
            }
        }
        if n == 5 {
            lemma_with_mangle(s, t[0]);
            let s1 = with_mangle(s, t[0]);
            assert forall|a: u32, z: u32| keys_unique(
                keys_of(#[trigger] super::tables::inserted(s1.bss, t[0], (a, z, mangled(s1, t[0])))),
            ) by {
                lemma_inserted_keeps_keys_unique(s1.bss, t[0], (a, z, mangled(s1, t[0])));
            }
            assert(names_unique(bss_assembled(s, t[0], t[3], t[4]).0));
            lemma_data_assembled(s, t[0], t[2], t[3], t[4]);
        }
        if n == 4 {
            lemma_labelled(aligned(s, 4).0, t[0]);
            lemma_data_assembled(s, t[0], t[2], t[3], "0"@);
        }
        if n == 2 {
            lemma_labelled(s, t[0]);
        }
        lemma_text_assembled(s, t);
        assert(names_unique(constant_added(s, t[1], t[2]).0) || n != 3);
        assert(names_unique(org_placed(s, t[1]).0) || n != 2);
        assert(names_unique(nomangled(s, t[1]).0) || n != 2);
        assert(names_unique(line_assembled(s, t).0));
    }
}

} // verus!
