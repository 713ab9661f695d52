//! What reading gives back of what writing wrote: an object written and read
//! again is the same object.
use vstd::prelude::*;
use vstd::utf8::*;

use crate::text::{
    dec_digits, dec_signed, hex8, is_word, is_ws, lemma_dec_digits_parse, lemma_dec_digits_scan, lemma_dec_signed_parse,
    lemma_hex8_parse, lemma_words_spaced, leading_ws, parse_unsigned, spaced, trailing_ws, trim, words, IntParseError,
};

use super::bss::{bss_text, parse_bss, BssParseError};
use super::relocation::{
    base_text, parse_base, parse_relocation, parse_sign, relocation_text, sign_text, RelocationFault, RelocationFields,
};
use super::symbol::{parse_symbol, symbol_text, SymbolParseError};

use super::object_file::{
    bss_rows, bytes_marker, keep_content, lines_text, marker_at, next_line_start, pieces_acc, relocation_rows, search_marker,
    strip_cr, symbol_rows, header_lines, byte_count_header, content_lines, count_header, encoded, parse_object,
    parse_tables, ObjectFault, ObjectValue,
};

verus! {

/// The encoding of a concatenation is the concatenation of the encodings.
pub proof fn lemma_encode_utf8_add(a: Seq<char>, b: Seq<char>)
    ensures
        encode_utf8(a + b) == encode_utf8(a) + encode_utf8(b),
    decreases a.len(),
{
    if a.len() == 0 {
        assert(a + b =~= b);
        assert(encode_utf8(a) + encode_utf8(b) =~= encode_utf8(b));
    } else {
        lemma_encode_utf8_add(a.drop_first(), b);
        assert((a + b).drop_first() =~= a.drop_first() + b);
        assert((a + b)[0] == a[0]);
        assert(encode_scalar(a[0] as u32) + (encode_utf8(a.drop_first()) + encode_utf8(b)) =~= (encode_scalar(a[0] as u32)
            + encode_utf8(a.drop_first())) + encode_utf8(b));
    }
}

proof fn lemma_wide_bytes_high(s: u32)
    by (bit_vector)
    ensures
        (0xC0u8 | ((s >> 6u32) & 0x1Fu32) as u8) >= 0x80u8,
        (0xE0u8 | ((s >> 12u32) & 0x0Fu32) as u8) >= 0x80u8,
        (0xF0u8 | ((s >> 18u32) & 0x7u32) as u8) >= 0x80u8,
        (0x80u8 | (s & 0x3Fu32) as u8) >= 0x80u8,
        (0x80u8 | ((s >> 6u32) & 0x3Fu32) as u8) >= 0x80u8,
        (0x80u8 | ((s >> 12u32) & 0x3Fu32) as u8) >= 0x80u8,
{
}

proof fn lemma_narrow_byte(s: u32)
    by (bit_vector)
    requires
        s <= 0x7F,
    ensures
        (s & 0x7Fu32) as u8 == s as u8,
        (s as u8) as u32 == s,
{
}

/// A character's encoding: one byte, the character itself, when it is ASCII;
/// else bytes of 0x80 and above.
pub proof fn lemma_scalar_bytes(c: char)
    ensures
        (c as u32) < 0x80 ==> encode_scalar(c as u32) == seq![(c as u32) as u8],
        (c as u32) >= 0x80 ==> forall|k: int| 0 <= k < encode_scalar(c as u32).len() ==> #[trigger] encode_scalar(c as u32)[k] >= 0x80,
        encode_scalar(c as u32).len() >= 1,
{
    let s = c as u32;
    lemma_wide_bytes_high(s);
    if s < 0x80 {
        lemma_narrow_byte(s);
    }
}

/// A text without line feeds encodes to bytes without the line feed byte.
pub proof fn lemma_no_newline_bytes(t: Seq<char>)
    requires
        forall|k: int| 0 <= k < t.len() ==> #[trigger] t[k] != '\n',
    ensures
        forall|k: int| 0 <= k < encode_utf8(t).len() ==> #[trigger] encode_utf8(t)[k] != 0x0Au8,
    decreases t.len(),
{
    if t.len() > 0 {
        let rest = t.drop_first();
        assert forall|k: int| 0 <= k < rest.len() implies #[trigger] rest[k] != '\n' by {
            assert(rest[k] == t[k + 1]);
        }
        lemma_no_newline_bytes(rest);
        lemma_scalar_bytes(t[0]);
        let head = encode_scalar(t[0] as u32);
        assert(t[0] != '\n');
        assert forall|k: int| 0 <= k < encode_utf8(t).len() implies #[trigger] encode_utf8(t)[k] != 0x0Au8 by {
            if k < head.len() {
                assert(encode_utf8(t)[k] == head[k]);
                if (t[0] as u32) < 0x80 {
                    assert(head[k] == (t[0] as u32) as u8);
                    if (t[0] as u32) == 0x0A {
                        char_u32_cast(t[0], 0x0Au32);
                        char_u32_cast('\n', 0x0Au32);
                    }
                    lemma_narrow_byte(t[0] as u32);
                }
            } else {
                assert(encode_utf8(t)[k] == encode_utf8(rest)[k - head.len()]);
            }
        }
    }
}

/// The encoding of a text that starts with ASCII characters starts with
/// their bytes.
pub proof fn lemma_ascii_prefix_bytes(t: Seq<char>)
    ensures
        t.len() >= 1 && (t[0] as u32) < 0x80 ==> encode_utf8(t).len() >= 1 && encode_utf8(t)[0] == (t[0] as u32) as u8,
        t.len() >= 1 && (t[0] as u32) >= 0x80 ==> encode_utf8(t).len() >= 1 && encode_utf8(t)[0] >= 0x80,
        t.len() >= 2 && (t[0] as u32) < 0x80 && (t[1] as u32) < 0x80 ==> encode_utf8(t).len() >= 2 && encode_utf8(t)[1] == (
        t[1] as u32) as u8,
{
    if t.len() >= 1 {
        lemma_scalar_bytes(t[0]);
        let rest = t.drop_first();
        if rest.len() >= 1 {
            lemma_scalar_bytes(rest[0]);
            assert(rest[0] == t[1]);
            if (t[0] as u32) < 0x80 {
                assert(encode_utf8(t) == encode_scalar(t[0] as u32) + encode_utf8(rest));
                assert(encode_utf8(rest) == encode_scalar(rest[0] as u32) + encode_utf8(rest.drop_first()));
                assert(encode_utf8(t)[1] == encode_utf8(rest)[0]);
            }
        }
    }
}

/// The search for the marker skips a stretch where no marker starts.
pub proof fn lemma_search_skips(data: Seq<u8>, i: int, j: int)
    requires
        0 <= i <= j,
        forall|k: int| i <= k < j ==> !#[trigger] marker_at(data, k),
    ensures
        search_marker(data, i) == search_marker(data, j),
    decreases j - i,
{
    if i < j {
        lemma_search_skips(data, i + 1, j);
        if i + 7 > data.len() {
            assert(search_marker(data, j) is None) by {
                if j + 7 <= data.len() {
                    assert(false);
                }
            }
        } else {
            assert(!marker_at(data, i));
        }
    }
}

/// The search for a line feed skips bytes that are not line feeds.
pub proof fn lemma_next_line_skips(data: Seq<u8>, i: int, j: int)
    requires
        0 <= i <= j <= data.len(),
        forall|k: int| i <= k < j ==> #[trigger] data[k] != 0x0Au8,
    ensures
        next_line_start(data, i) == next_line_start(data, j),
    decreases j - i,
{
    if i < j {
        lemma_next_line_skips(data, i + 1, j);
    }
}

/// The characters of a word, as plain text: not a line feed, not a carriage
/// return.
proof fn lemma_word_chars(w: Seq<char>, k: int)
    requires
        is_word(w),
        0 <= k < w.len(),
    ensures
        w[k] != '\n',
        w[k] != '\r',
        !is_ws(w[k]),
{
    assert(!is_ws(w[k]));
    if w[k] == '\n' {
        assert(is_ws('\n'));
    }
    if w[k] == '\r' {
        assert(is_ws('\r'));
    }
}

/// Eight hex digits are a word of ASCII characters other than `Y`.
proof fn lemma_hex8_word(n: u32)
    ensures
        is_word(hex8(n)),
        hex8(n).len() == 8,
        forall|k: int| 0 <= k < 8 ==> (#[trigger] hex8(n)[k] as u32) < 0x80 && hex8(n)[k] != 'Y',
        parse_unsigned(hex8(n), 16, u32::MAX as int) == Ok::<int, IntParseError>(n as int),
{
    lemma_hex8_parse(n, u32::MAX as int);
}

/// A BSS row written is read back.
pub proof fn lemma_bss_row_round_trip(alignment: u32, size: u32, name: Seq<char>)
    requires
        is_word(name),
    ensures
        parse_bss(bss_text(alignment, size, name)) == Ok::<(u32, u32, Seq<char>), BssParseError>((alignment, size, name)),
        bss_text(alignment, size, name) == spaced(seq![hex8(alignment), hex8(size), name]),
{
    lemma_hex8_word(alignment);
    lemma_hex8_word(size);
    let ws = seq![hex8(alignment), hex8(size), name];
    assert(ws.drop_last().drop_last() =~= seq![hex8(alignment)]);
    assert(spaced(ws.drop_last().drop_last()) == hex8(alignment));
    assert(spaced(ws.drop_last()) =~= hex8(alignment) + seq![' '] + hex8(size));
    assert(spaced(ws) =~= bss_text(alignment, size, name));
    lemma_words_spaced(ws);
}

/// A symbol row written is read back.
pub proof fn lemma_symbol_row_round_trip(offset: u32, name: Seq<char>)
    requires
        is_word(name),
    ensures
        parse_symbol(symbol_text(offset, name)) == Ok::<(u32, Seq<char>), SymbolParseError>((offset, name)),
        symbol_text(offset, name) == spaced(seq![hex8(offset), name]),
{
    lemma_hex8_word(offset);
    let ws = seq![hex8(offset), name];
    assert(ws.drop_last() =~= seq![hex8(offset)]);
    assert(spaced(ws.drop_last()) == hex8(offset));
    assert(spaced(ws) =~= symbol_text(offset, name));
    lemma_words_spaced(ws);
}

/// A relocation row written is read back.
pub proof fn lemma_relocation_row_round_trip(f: RelocationFields)
    requires
        is_word(f.1),
    ensures
        parse_relocation(relocation_text(f)) == Ok::<RelocationFields, RelocationFault>(f),
        exists|ws: Seq<Seq<char>>|
            ws.len() == 8 && ws[0] == hex8(f.0) && spaced(ws) == relocation_text(f) && (forall|i: int|
                0 <= i < ws.len() ==> is_word(#[trigger] ws[i])),
{
    reveal_strlit(" ");
    reveal_strlit("abs");
    reveal_strlit("rel");
    reveal_strlit("u");
    reveal_strlit("s");
    lemma_hex8_word(f.0);
    lemma_dec_signed_parse(f.2 as int, i32::MIN as int, i32::MAX as int);
    lemma_dec_digits_parse(f.5 as nat, 255);
    lemma_dec_digits_parse(f.6 as nat, 255);
    lemma_dec_digits_parse(f.7 as nat, 255);
    lemma_dec_digits_scan(f.5 as nat, 255);
    lemma_dec_digits_scan(f.6 as nat, 255);
    lemma_dec_digits_scan(f.7 as nat, 255);
    let d2 = dec_signed(f.2 as int);
    let d5 = dec_digits(f.5 as nat);
    let d6 = dec_digits(f.6 as nat);
    let d7 = dec_digits(f.7 as nat);
    let b = base_text(f.3);
    let g = sign_text(f.4);
    assert(is_word(d2));
    assert(is_word(d5));
    assert(is_word(d6));
    assert(is_word(d7));
    assert(is_word(b)) by {
        assert(!is_ws('a') && !is_ws('b') && !is_ws('s') && !is_ws('r') && !is_ws('e') && !is_ws('l'));
    }
    assert(is_word(g)) by {
        assert(!is_ws('u') && !is_ws('s'));
    }
    let ws = seq![hex8(f.0), f.1, d2, b, g, d5, d6, d7];
    assert(forall|i: int| 0 <= i < ws.len() ==> is_word(#[trigger] ws[i]));
    assert(spaced(ws.take(1)) =~= hex8(f.0));
    assert(spaced(ws.take(2)) =~= hex8(f.0) + " "@ + f.1) by {
        assert(ws.take(2).drop_last() =~= ws.take(1));
    }
    assert(spaced(ws.take(3)) =~= hex8(f.0) + " "@ + f.1 + " "@ + d2) by {
        assert(ws.take(3).drop_last() =~= ws.take(2));
    }
    assert(spaced(ws.take(4)) =~= hex8(f.0) + " "@ + f.1 + " "@ + d2 + " "@ + b) by {
        assert(ws.take(4).drop_last() =~= ws.take(3));
    }
    assert(spaced(ws.take(5)) =~= hex8(f.0) + " "@ + f.1 + " "@ + d2 + " "@ + b + " "@ + g) by {
        assert(ws.take(5).drop_last() =~= ws.take(4));
    }
    assert(spaced(ws.take(6)) =~= hex8(f.0) + " "@ + f.1 + " "@ + d2 + " "@ + b + " "@ + g + " "@ + d5) by {
        assert(ws.take(6).drop_last() =~= ws.take(5));
    }
    assert(spaced(ws.take(7)) =~= hex8(f.0) + " "@ + f.1 + " "@ + d2 + " "@ + b + " "@ + g + " "@ + d5 + " "@ + d6) by {
        assert(ws.take(7).drop_last() =~= ws.take(6));
    }
    assert(spaced(ws) =~= relocation_text(f)) by {
        assert(ws.drop_last() =~= ws.take(7));
    }
    lemma_words_spaced(ws);
    assert(parse_base(b) == Some(f.3)) by {
        assert("rel"@[0] != "abs"@[0]);
    }
    assert(parse_sign(g) == Some(f.4)) by {
        assert("s"@[0] != "u"@[0]);
    }
}

/// A text without line feeds.
pub open spec fn one_line(l: Seq<char>) -> bool {
    forall|k: int| 0 <= k < l.len() ==> #[trigger] l[k] != '\n'
}

/// A line that starts and ends with a character other than whitespace.
pub open spec fn clean_line(l: Seq<char>) -> bool {
    &&& one_line(l)
    &&& l.len() > 0
    &&& !is_ws(l[0])
    &&& !is_ws(l.last())
}

proof fn lemma_pieces_extend(x: Seq<char>, l: Seq<char>)
    requires
        one_line(l),
    ensures
        pieces_acc(x + l) == (pieces_acc(x).0, pieces_acc(x).1 + l),
    decreases l.len(),
{
    if l.len() == 0 {
        assert(x + l =~= x);
        assert(pieces_acc(x).1 + l =~= pieces_acc(x).1);
    } else {
        lemma_pieces_extend(x, l.drop_last());
        assert((x + l).drop_last() =~= x + l.drop_last());
        assert((x + l).last() == l.last());
        assert(l.last() == l[l.len() - 1]);
        assert((pieces_acc(x).1 + l.drop_last()).push(l.last()) =~= pieces_acc(x).1 + l);
    }
}

/// Lines each followed by a line feed split back into those lines.
proof fn lemma_pieces_lines(ls: Seq<Seq<char>>)
    requires
        forall|i: int| 0 <= i < ls.len() ==> one_line(#[trigger] ls[i]),
    ensures
        pieces_acc(lines_text(ls)) == (ls, Seq::<char>::empty()),
    decreases ls.len(),
{
    if ls.len() > 0 {
        let init = ls.drop_last();
        assert forall|i: int| 0 <= i < init.len() implies one_line(#[trigger] init[i]) by {
            assert(init[i] == ls[i]);
        }
        lemma_pieces_lines(init);
        assert(one_line(ls.last())) by {
            assert(one_line(ls[ls.len() - 1]));
        }
        lemma_pieces_extend(lines_text(init), ls.last());
        let x = lines_text(init) + ls.last();
        assert(lines_text(ls).drop_last() =~= x);
        assert(Seq::<char>::empty() + ls.last() =~= ls.last());
        assert(init.push(ls.last()) =~= ls);
    }
}

proof fn lemma_keep_add(a: Seq<Seq<char>>, b: Seq<Seq<char>>)
    ensures
        keep_content(a + b) == keep_content(a) + keep_content(b),
    decreases b.len(),
{
    if b.len() == 0 {
        assert(a + b =~= a);
        assert(keep_content(a) + keep_content(b) =~= keep_content(a));
    } else {
        lemma_keep_add(a, b.drop_last());
        assert((a + b).drop_last() =~= a + b.drop_last());
        assert((a + b).last() == b.last());
        if trim(b.last()).len() > 0 {
            assert((keep_content(a) + keep_content(b.drop_last())).push(strip_cr(b.last())) =~= keep_content(a) + keep_content(
                b.drop_last()).push(strip_cr(b.last())));
        }
    }
}

/// A clean line is kept as it is.
proof fn lemma_clean_kept(l: Seq<char>)
    requires
        clean_line(l),
    ensures
        trim(l) == l,
        strip_cr(l) == l,
        keep_content(seq![l]) == seq![l],
{
    assert(leading_ws(l) == 0);
    assert(l.subrange(0, l.len() as int) =~= l);
    assert(trailing_ws(l) == 0);
    assert(l.subrange(0, l.len() - 0) =~= l);
    assert(is_ws('\r'));
    assert(seq![l].drop_last() =~= Seq::<Seq<char>>::empty());
    assert(keep_content(Seq::<Seq<char>>::empty()) == Seq::<Seq<char>>::empty());
    assert(seq![l].last() == l);
    assert(Seq::<Seq<char>>::empty().push(l) =~= seq![l]);
}

/// Clean lines are all kept.
proof fn lemma_keep_clean(ls: Seq<Seq<char>>)
    requires
        forall|i: int| 0 <= i < ls.len() ==> clean_line(#[trigger] ls[i]),
    ensures
        keep_content(ls) == ls,
    decreases ls.len(),
{
    if ls.len() > 0 {
        let init = ls.drop_last();
        assert forall|i: int| 0 <= i < init.len() implies clean_line(#[trigger] init[i]) by {
            assert(init[i] == ls[i]);
        }
        lemma_keep_clean(init);
        assert(clean_line(ls.last())) by {
            assert(clean_line(ls[ls.len() - 1]));
        }
        lemma_clean_kept(ls.last());
        assert(init.push(ls.last()) =~= ls);
    }
}

/// An empty line is dropped.
proof fn lemma_empty_dropped()
    ensures
        keep_content(seq![Seq::<char>::empty()]) == Seq::<Seq<char>>::empty(),
{
    let e = Seq::<char>::empty();
    assert(trim(e) =~= e);
    assert(seq![e].drop_last() =~= Seq::<Seq<char>>::empty());
    assert(keep_content(Seq::<Seq<char>>::empty()) == Seq::<Seq<char>>::empty());
    assert(seq![e].last() == e);
}

proof fn lemma_bss_rows(lines: Seq<Seq<char>>, at: int, rows: Seq<(u32, u32, Seq<char>)>, k: nat)
    requires
        0 <= at,
        k <= rows.len(),
        at + rows.len() <= lines.len(),
        forall|i: int| 0 <= i < rows.len() ==> lines[at + i] == bss_text(#[trigger] rows[i].0, rows[i].1, rows[i].2),
        forall|i: int| 0 <= i < rows.len() ==> is_word(#[trigger] rows[i].2),
    ensures
        bss_rows(lines, at, k) == Ok::<Seq<(u32, u32, Seq<char>)>, ObjectFault>(rows.take(k as int)),
    decreases k,
{
    if k > 0 {
        lemma_bss_rows(lines, at, rows, (k - 1) as nat);
        let r = rows[k - 1];
        assert(is_word(r.2));
        assert(lines[at + k - 1] == bss_text(r.0, r.1, r.2));
        lemma_bss_row_round_trip(r.0, r.1, r.2);
        assert(rows.take(k - 1).push(r) =~= rows.take(k as int));
    } else {
        assert(rows.take(0) =~= Seq::<(u32, u32, Seq<char>)>::empty());
    }
}

proof fn lemma_symbol_rows(lines: Seq<Seq<char>>, at: int, rows: Seq<(u32, Seq<char>)>, k: nat)
    requires
        0 <= at,
        k <= rows.len(),
        at + rows.len() <= lines.len(),
        forall|i: int| 0 <= i < rows.len() ==> lines[at + i] == symbol_text(#[trigger] rows[i].0, rows[i].1),
        forall|i: int| 0 <= i < rows.len() ==> is_word(#[trigger] rows[i].1),
    ensures
        symbol_rows(lines, at, k) == Ok::<Seq<(u32, Seq<char>)>, ObjectFault>(rows.take(k as int)),
    decreases k,
{
    if k > 0 {
        lemma_symbol_rows(lines, at, rows, (k - 1) as nat);
        let r = rows[k - 1];
        assert(is_word(r.1));
        assert(lines[at + k - 1] == symbol_text(r.0, r.1));
        lemma_symbol_row_round_trip(r.0, r.1);
        assert(rows.take(k - 1).push(r) =~= rows.take(k as int));
    } else {
        assert(rows.take(0) =~= Seq::<(u32, Seq<char>)>::empty());
    }
}

proof fn lemma_relocation_rows(lines: Seq<Seq<char>>, at: int, rows: Seq<RelocationFields>, k: nat)
    requires
        0 <= at,
        k <= rows.len(),
        at + rows.len() <= lines.len(),
        forall|i: int| 0 <= i < rows.len() ==> lines[at + i] == relocation_text(#[trigger] rows[i]),
        forall|i: int| 0 <= i < rows.len() ==> is_word(#[trigger] rows[i].1),
    ensures
        relocation_rows(lines, at, k) == Ok::<Seq<RelocationFields>, ObjectFault>(rows.take(k as int)),
    decreases k,
{
    if k > 0 {
        lemma_relocation_rows(lines, at, rows, (k - 1) as nat);
        let r = rows[k - 1];
        assert(is_word(r.1));
        assert(lines[at + k - 1] == relocation_text(r));
        lemma_relocation_row_round_trip(r);
        assert(rows.take(k - 1).push(r) =~= rows.take(k as int));
    } else {
        assert(rows.take(0) =~= Seq::<RelocationFields>::empty());
    }
}

/// A text of ASCII characters.
pub open spec fn ascii_text(t: Seq<char>) -> bool {
    forall|k: int| 0 <= k < t.len() ==> (#[trigger] t[k] as u32) < 0x80
}

/// An ASCII text encodes to one byte per character.
proof fn lemma_ascii_text(t: Seq<char>)
    requires
        ascii_text(t),
    ensures
        encode_utf8(t).len() == t.len(),
        forall|k: int| 0 <= k < t.len() ==> #[trigger] encode_utf8(t)[k] == (t[k] as u32) as u8,
    decreases t.len(),
{
    if t.len() > 0 {
        let rest = t.drop_first();
        assert forall|k: int| 0 <= k < rest.len() implies (#[trigger] rest[k] as u32) < 0x80 by {
            assert(rest[k] == t[k + 1]);
        }
        lemma_ascii_text(rest);
        assert((t[0] as u32) < 0x80);
        lemma_scalar_bytes(t[0]);
        assert forall|k: int| 0 <= k < t.len() implies #[trigger] encode_utf8(t)[k] == (t[k] as u32) as u8 by {
            if k > 0 {
                assert(encode_utf8(t)[k] == encode_utf8(rest)[k - 1]);
                assert(rest[k - 1] == t[k]);
            }
        }
    }
}

/// Whether a line, read just after a line feed, cannot begin `BYTES `.
pub open spec fn safe_line(l: Seq<char>) -> bool {
    ||| l.len() == 0
    ||| (l[0] as u32) < 0x80 && l[0] != 'B'
    ||| l.len() >= 2 && l[0] == 'B' && (l[1] as u32) < 0x80 && l[1] != 'Y'
}

proof fn lemma_newline_byte()
    ensures
        encode_utf8(seq!['\n']) == seq![0x0Au8],
{
    let t = seq!['\n'];
    assert(('\n' as u32) == 0x0Au32);
    assert(t[0] == '\n');
    lemma_ascii_text(t);
    lemma_narrow_byte(0x0Au32);
    assert(encode_utf8(t) =~= seq![0x0Au8]);
}

proof fn lemma_lines_text_bytes(ls: Seq<Seq<char>>)
    requires
        ls.len() > 0,
    ensures
        encode_utf8(lines_text(ls)) == encode_utf8(lines_text(ls.drop_last())) + encode_utf8(ls.last()) + seq![0x0Au8],
{
    lemma_encode_utf8_add(lines_text(ls.drop_last()) + ls.last(), seq!['\n']);
    lemma_encode_utf8_add(lines_text(ls.drop_last()), ls.last());
    lemma_newline_byte();
}

proof fn lemma_ascii_byte_is(c: char, b: u8, d: char)
    requires
        (c as u32) < 0x80,
        (c as u32) as u8 == b,
        b == (d as u32) as u8,
        (d as u32) < 0x80,
    ensures
        c == d,
{
    lemma_narrow_byte(c as u32);
    lemma_narrow_byte(d as u32);
    char_u32_cast(c, c as u32);
    char_u32_cast(d, d as u32);
}

/// Across lines that cannot begin the marker, the first marker is not
/// before the last line feed.
proof fn lemma_search_lines(ls: Seq<Seq<char>>, data: Seq<u8>)
    requires
        ls.len() >= 1,
        forall|i: int| 0 <= i < ls.len() ==> one_line(#[trigger] ls[i]),
        forall|i: int| 1 <= i < ls.len() ==> safe_line(#[trigger] ls[i]),
        encode_utf8(lines_text(ls)).len() <= data.len(),
        data.subrange(0, encode_utf8(lines_text(ls)).len() as int) == encode_utf8(lines_text(ls)),
    ensures
        search_marker(data, 0) == search_marker(data, encode_utf8(lines_text(ls)).len() - 1),
        data[encode_utf8(lines_text(ls)).len() - 1] == 0x0Au8,
    decreases ls.len(),
{
    let init = ls.drop_last();
    let l = ls.last();
    lemma_lines_text_bytes(ls);
    let whole = encode_utf8(lines_text(ls));
    let head = encode_utf8(lines_text(init));
    let el = encode_utf8(l);
    let a = head.len() as int;
    assert(one_line(l)) by {
        assert(one_line(ls[ls.len() - 1]));
    }
    lemma_no_newline_bytes(l);
    assert(whole.len() == a + el.len() + 1);
    assert forall|k: int| 0 <= k < el.len() implies data[a + k] == #[trigger] el[k] by {
        assert(data[a + k] == data.subrange(0, whole.len() as int)[a + k]);
        assert(whole[a + k] == el[k]);
    }
    assert(data[a + el.len()] == 0x0Au8) by {
        assert(data[a + el.len()] == data.subrange(0, whole.len() as int)[a + el.len()]);
    }
    assert forall|k: int| a <= k < a + el.len() implies !#[trigger] marker_at(data, k) by {
        assert(data[k] == el[k - a]);
    }
    if init.len() == 0 {
        assert(a == 0) by {
            assert(lines_text(init) =~= Seq::<char>::empty());
        }
        lemma_search_skips(data, 0, el.len() as int);
    } else {
        assert forall|i: int| 0 <= i < init.len() implies one_line(#[trigger] init[i]) by {
            assert(init[i] == ls[i]);
        }
        assert forall|i: int| 1 <= i < init.len() implies safe_line(#[trigger] init[i]) by {
            assert(init[i] == ls[i]);
        }
        assert(data.subrange(0, a) == head) by {
            assert(data.subrange(0, a) =~= data.subrange(0, whole.len() as int).subrange(0, a));
            assert(whole.subrange(0, a) =~= head);
        }
        lemma_search_lines(init, data);
        assert(safe_line(l)) by {
            assert(safe_line(ls[ls.len() - 1]));
        }
        lemma_ascii_prefix_bytes(l);
        assert(!marker_at(data, a - 1)) by {
            if marker_at(data, a - 1) {
                if l.len() == 0 {
                    assert(data[a] == 0x0Au8);
                } else if (l[0] as u32) < 0x80 && l[0] != 'B' {
                    assert(data[a] == el[0]);
                    lemma_ascii_byte_is(l[0], 0x42u8, 'B');
                } else {
                    assert(data[a] == el[0]);
                    assert(data[a + 1] == el[1]);
                    lemma_ascii_byte_is(l[1], 0x59u8, 'Y');
                }
            }
        }
        lemma_search_skips(data, a - 1, a + el.len());
    }
}

/// A word is a line without line feeds.
proof fn lemma_word_one_line(w: Seq<char>)
    requires
        is_word(w),
    ensures
        one_line(w),
{
    assert forall|k: int| 0 <= k < w.len() implies #[trigger] w[k] != '\n' by {
        lemma_word_chars(w, k);
    }
}

/// Words joined by single spaces make a clean line that starts as the first
/// word does.
proof fn lemma_spaced_clean(ws: Seq<Seq<char>>)
    requires
        ws.len() > 0,
        forall|i: int| 0 <= i < ws.len() ==> is_word(#[trigger] ws[i]),
    ensures
        clean_line(spaced(ws)),
        spaced(ws).len() >= ws[0].len(),
        forall|k: int| 0 <= k < ws[0].len() ==> #[trigger] spaced(ws)[k] == ws[0][k],
    decreases ws.len(),
{
    assert(is_word(ws[0]));
    assert(is_word(ws.last())) by {
        assert(is_word(ws[ws.len() - 1]));
    }
    if ws.len() == 1 {
        lemma_word_one_line(ws[0]);
    } else {
        let init = ws.drop_last();
        assert forall|i: int| 0 <= i < init.len() implies is_word(#[trigger] init[i]) by {
            assert(init[i] == ws[i]);
        }
        lemma_spaced_clean(init);
        let x = spaced(init);
        let w = ws.last();
        lemma_word_one_line(w);
        let t = spaced(ws);
        assert(t =~= x + seq![' '] + w);
        assert forall|k: int| 0 <= k < t.len() implies #[trigger] t[k] != '\n' by {
            if k < x.len() {
                assert(t[k] == x[k]);
            } else if k > x.len() {
                assert(t[k] == w[k - x.len() - 1]);
            }
        }
        assert(t.last() == w.last());
        assert(!is_ws(w.last())) by {
            lemma_word_chars(w, w.len() - 1);
        }
        assert(init[0] == ws[0]);
        assert forall|k: int| 0 <= k < ws[0].len() implies #[trigger] t[k] == ws[0][k] by {
            assert(t[k] == x[k]);
        }
    }
}

/// The names an object holds are words: the rows separate their fields by
/// whitespace.
pub open spec fn names_are_words(v: ObjectValue) -> bool {
    &&& forall|i: int| 0 <= i < v.bss.len() ==> is_word(#[trigger] v.bss[i].2)
    &&& forall|i: int| 0 <= i < v.symbols.len() ==> is_word(#[trigger] v.symbols[i].1)
    &&& forall|i: int| 0 <= i < v.relocations.len() ==> is_word(#[trigger] v.relocations[i].1)
}

/// The lines of the text part of an encoded object, by position.
proof fn lemma_header_shape(v: ObjectValue)
    ensures
        ({
            let h = header_lines(v);
            let nb = v.bss.len() as int;
            let ns = v.symbols.len() as int;
            let nr = v.relocations.len() as int;
            &&& h.len() == 9 + nb + ns + nr
            &&& h[0] == "VIVO 1"@
            &&& h[1] == Seq::<char>::empty()
            &&& h[2] == "BSS "@ + dec_digits(v.bss.len())
            &&& forall|i: int| 0 <= i < nb ==> #[trigger] h[3 + i] == bss_text(v.bss[i].0, v.bss[i].1, v.bss[i].2)
            &&& h[3 + nb] == Seq::<char>::empty()
            &&& h[4 + nb] == "SYMBOLS "@ + dec_digits(v.symbols.len())
            &&& forall|i: int| 0 <= i < ns ==> #[trigger] h[5 + nb + i] == symbol_text(v.symbols[i].0, v.symbols[i].1)
            &&& h[5 + nb + ns] == Seq::<char>::empty()
            &&& h[6 + nb + ns] == "RELOCATIONS "@ + dec_digits(v.relocations.len())
            &&& forall|i: int| 0 <= i < nr ==> #[trigger] h[7 + nb + ns + i] == relocation_text(v.relocations[i])
            &&& h[7 + nb + ns + nr] == Seq::<char>::empty()
            &&& h[8 + nb + ns + nr] == "BYTES "@ + hex8(v.bytes.len() as u32)
        }),
{
    let h = header_lines(v);
    let nb = v.bss.len() as int;
    let ns = v.symbols.len() as int;
    let nr = v.relocations.len() as int;
    let a = seq!["VIVO 1"@, Seq::empty(), "BSS "@ + dec_digits(v.bss.len())];
    let br = v.bss.map_values(|b: (u32, u32, Seq<char>)| bss_text(b.0, b.1, b.2));
    let d = seq![Seq::empty(), "SYMBOLS "@ + dec_digits(v.symbols.len())];
    let sr = v.symbols.map_values(|s: (u32, Seq<char>)| symbol_text(s.0, s.1));
    let e = seq![Seq::empty(), "RELOCATIONS "@ + dec_digits(v.relocations.len())];
    let rr = v.relocations.map_values(|r: RelocationFields| relocation_text(r));
    let f = seq![Seq::empty(), "BYTES "@ + hex8(v.bytes.len() as u32)];
    assert(h == a + br + d + sr + e + rr + f);
    assert forall|i: int| 0 <= i < nb implies #[trigger] h[3 + i] == bss_text(v.bss[i].0, v.bss[i].1, v.bss[i].2) by {
        assert(h[3 + i] == br[i]);
    }
    assert forall|i: int| 0 <= i < ns implies #[trigger] h[5 + nb + i] == symbol_text(v.symbols[i].0, v.symbols[i].1) by {
        assert(h[5 + nb + i] == sr[i]);
    }
    assert forall|i: int| 0 <= i < nr implies #[trigger] h[7 + nb + ns + i] == relocation_text(v.relocations[i]) by {
        assert(h[7 + nb + ns + i] == rr[i]);
    }
}

/// A line that starts with eight hex digits, written as words joined by
/// spaces, is clean and cannot begin the marker.
proof fn lemma_hex_row_line(ws: Seq<Seq<char>>, x: u32)
    requires
        ws.len() > 0,
        ws[0] == hex8(x),
        forall|i: int| 0 <= i < ws.len() ==> is_word(#[trigger] ws[i]),
    ensures
        clean_line(spaced(ws)),
        safe_line(spaced(ws)),
{
    lemma_spaced_clean(ws);
    lemma_hex8_word(x);
    let l = spaced(ws);
    assert(l[0] == hex8(x)[0]);
    assert(l[1] == hex8(x)[1]);
}

/// A count line: a name, a space and a decimal count.
proof fn lemma_count_line(name: Seq<char>, line: Seq<char>, n: nat)
    requires
        is_word(name),
        ascii_text(name),
        name.len() >= 2,
        name[0] != 'B' || name[1] != 'Y',
        line == name + seq![' '] + dec_digits(n),
        n <= usize::MAX,
    ensures
        clean_line(line),
        safe_line(line),
        count_header(line, name) == Ok::<nat, Seq<char>>(n),
{
    lemma_dec_digits_scan(n, usize::MAX as int);
    lemma_dec_digits_parse(n, usize::MAX as int);
    let d = dec_digits(n);
    assert(is_word(d));
    let ws = seq![name, d];
    assert(ws.drop_last() =~= seq![name]);
    assert(spaced(ws.drop_last()) == name);
    assert(spaced(ws) =~= line);
    assert(forall|i: int| 0 <= i < ws.len() ==> is_word(#[trigger] ws[i]));
    lemma_spaced_clean(ws);
    lemma_words_spaced(ws);
    assert(line[0] == name[0]);
    assert(line[1] == name[1]);
    assert((name[0] as u32) < 0x80 && (name[1] as u32) < 0x80);
}

proof fn lemma_first_line()
    ensures
        clean_line("VIVO 1"@),
{
    reveal_strlit("VIVO 1");
    assert(!is_ws('V') && !is_ws('1') && !is_ws('I') && !is_ws('O'));
    let l = "VIVO 1"@;
    assert forall|k: int| 0 <= k < l.len() implies #[trigger] l[k] != '\n' by {}
}

proof fn lemma_bss_count_line(n: nat)
    requires
        n <= usize::MAX,
    ensures
        clean_line("BSS "@ + dec_digits(n)),
        safe_line("BSS "@ + dec_digits(n)),
        count_header("BSS "@ + dec_digits(n), "BSS"@) == Ok::<nat, Seq<char>>(n),
{
    reveal_strlit("BSS ");
    reveal_strlit("BSS");
    assert("BSS "@ =~= "BSS"@ + seq![' ']);
    assert(is_word("BSS"@) && ascii_text("BSS"@)) by {
        assert(!is_ws('B') && !is_ws('S'));
    }
    assert("BSS "@ + dec_digits(n) =~= "BSS"@ + seq![' '] + dec_digits(n));
    lemma_count_line("BSS"@, "BSS "@ + dec_digits(n), n);
}

proof fn lemma_symbols_count_line(n: nat)
    requires
        n <= usize::MAX,
    ensures
        clean_line("SYMBOLS "@ + dec_digits(n)),
        safe_line("SYMBOLS "@ + dec_digits(n)),
        count_header("SYMBOLS "@ + dec_digits(n), "SYMBOLS"@) == Ok::<nat, Seq<char>>(n),
{
    reveal_strlit("SYMBOLS ");
    reveal_strlit("SYMBOLS");
    assert("SYMBOLS "@ =~= "SYMBOLS"@ + seq![' ']);
    assert(is_word("SYMBOLS"@) && ascii_text("SYMBOLS"@)) by {
        assert(!is_ws('S') && !is_ws('Y') && !is_ws('M') && !is_ws('B') && !is_ws('O') && !is_ws('L'));
    }
    assert("SYMBOLS "@ + dec_digits(n) =~= "SYMBOLS"@ + seq![' '] + dec_digits(n));
    lemma_count_line("SYMBOLS"@, "SYMBOLS "@ + dec_digits(n), n);
}

proof fn lemma_relocations_count_line(n: nat)
    requires
        n <= usize::MAX,
    ensures
        clean_line("RELOCATIONS "@ + dec_digits(n)),
        safe_line("RELOCATIONS "@ + dec_digits(n)),
        count_header("RELOCATIONS "@ + dec_digits(n), "RELOCATIONS"@) == Ok::<nat, Seq<char>>(n),
{
    reveal_strlit("RELOCATIONS ");
    reveal_strlit("RELOCATIONS");
    assert("RELOCATIONS "@ =~= "RELOCATIONS"@ + seq![' ']);
    assert(is_word("RELOCATIONS"@) && ascii_text("RELOCATIONS"@)) by {
        assert(!is_ws('R') && !is_ws('E') && !is_ws('L') && !is_ws('O') && !is_ws('C') && !is_ws('A') && !is_ws('T')
            && !is_ws('I') && !is_ws('N') && !is_ws('S'));
    }
    assert("RELOCATIONS "@ + dec_digits(n) =~= "RELOCATIONS"@ + seq![' '] + dec_digits(n));
    lemma_count_line("RELOCATIONS"@, "RELOCATIONS "@ + dec_digits(n), n);
}

/// The `BYTES` line: clean, ASCII, fourteen characters, read as the count.
proof fn lemma_bytes_line(n: u32)
    ensures
        clean_line("BYTES "@ + hex8(n)),
        ascii_text("BYTES "@ + hex8(n)),
        ("BYTES "@ + hex8(n)).len() == 14,
        byte_count_header("BYTES "@ + hex8(n)) == Ok::<nat, Seq<char>>(n as nat),
        ("BYTES "@ + hex8(n)).subrange(0, 6) == seq!['B', 'Y', 'T', 'E', 'S', ' '],
{
    reveal_strlit("BYTES ");
    reveal_strlit("BYTES");
    lemma_hex8_word(n);
    lemma_hex8_parse(n, usize::MAX as int);
    let y = "BYTES "@ + hex8(n);
    let yw = seq!["BYTES"@, hex8(n)];
    assert(is_word("BYTES"@)) by {
        assert(!is_ws('B') && !is_ws('Y') && !is_ws('T') && !is_ws('E') && !is_ws('S'));
    }
    assert(forall|i: int| 0 <= i < yw.len() ==> is_word(#[trigger] yw[i]));
    assert(yw.drop_last() =~= seq!["BYTES"@]);
    assert(spaced(yw.drop_last()) == "BYTES"@);
    assert(spaced(yw) =~= y);
    lemma_spaced_clean(yw);
    lemma_words_spaced(yw);
    assert forall|k: int| 0 <= k < y.len() implies (#[trigger] y[k] as u32) < 0x80 by {
        if k >= 6 {
            assert(y[k] == hex8(n)[k - 6]);
        }
    }
    assert(y.subrange(0, 6) =~= seq!['B', 'Y', 'T', 'E', 'S', ' ']);
}

/// Every row line is clean and cannot begin the marker.
proof fn lemma_row_lines(v: ObjectValue)
    requires
        names_are_words(v),
    ensures
        forall|i: int| 0 <= i < v.bss.len() ==> clean_line(#[trigger] bss_text(v.bss[i].0, v.bss[i].1, v.bss[i].2))
            && safe_line(bss_text(v.bss[i].0, v.bss[i].1, v.bss[i].2)),
        forall|i: int| 0 <= i < v.symbols.len() ==> clean_line(#[trigger] symbol_text(v.symbols[i].0, v.symbols[i].1))
            && safe_line(symbol_text(v.symbols[i].0, v.symbols[i].1)),
        forall|i: int| 0 <= i < v.relocations.len() ==> clean_line(#[trigger] relocation_text(v.relocations[i]))
            && safe_line(relocation_text(v.relocations[i])),
{
    assert forall|i: int| 0 <= i < v.bss.len() implies clean_line(#[trigger] bss_text(v.bss[i].0, v.bss[i].1, v.bss[i].2))
        && safe_line(bss_text(v.bss[i].0, v.bss[i].1, v.bss[i].2)) by {
        let b = v.bss[i];
        assert(is_word(b.2));
        lemma_bss_row_round_trip(b.0, b.1, b.2);
        lemma_hex8_word(b.0);
        lemma_hex8_word(b.1);
        let ws = seq![hex8(b.0), hex8(b.1), b.2];
        assert(forall|j: int| 0 <= j < ws.len() ==> is_word(#[trigger] ws[j]));
        lemma_hex_row_line(ws, b.0);
    }
    assert forall|i: int| 0 <= i < v.symbols.len() implies clean_line(#[trigger] symbol_text(v.symbols[i].0, v.symbols[i].1))
        && safe_line(symbol_text(v.symbols[i].0, v.symbols[i].1)) by {
        let r = v.symbols[i];
        assert(is_word(r.1));
        lemma_symbol_row_round_trip(r.0, r.1);
        lemma_hex8_word(r.0);
        let ws = seq![hex8(r.0), r.1];
        assert(forall|j: int| 0 <= j < ws.len() ==> is_word(#[trigger] ws[j]));
        lemma_hex_row_line(ws, r.0);
    }
    assert forall|i: int| 0 <= i < v.relocations.len() implies clean_line(#[trigger] relocation_text(v.relocations[i]))
        && safe_line(relocation_text(v.relocations[i])) by {
        let r = v.relocations[i];
        assert(is_word(r.1));
        lemma_relocation_row_round_trip(r);
        let ws = choose|ws: Seq<Seq<char>>|
            ws.len() == 8 && ws[0] == hex8(r.0) && spaced(ws) == relocation_text(r) && (forall|j: int|
                0 <= j < ws.len() ==> is_word(#[trigger] ws[j]));
        lemma_hex_row_line(ws, r.0);
    }
}

/// Every line but the first cannot begin the marker; every line but the
/// last is clean or empty.
proof fn lemma_line_facts(v: ObjectValue)
    requires
        names_are_words(v),
        v.bss.len() <= usize::MAX,
        v.symbols.len() <= usize::MAX,
        v.relocations.len() <= usize::MAX,
    ensures
        ({
            let h = header_lines(v);
            &&& forall|i: int| 0 <= i < h.len() ==> one_line(#[trigger] h[i])
            &&& forall|i: int| 1 <= i < h.len() - 1 ==> safe_line(#[trigger] h[i])
            &&& forall|i: int| 0 <= i < h.len() - 1 && h[i].len() > 0 ==> clean_line(#[trigger] h[i])
        }),
{
    lemma_header_shape(v);
    lemma_row_lines(v);
    lemma_first_line();
    lemma_bss_count_line(v.bss.len());
    lemma_symbols_count_line(v.symbols.len());
    lemma_relocations_count_line(v.relocations.len());
    lemma_bytes_line(v.bytes.len() as u32);
    let h = header_lines(v);
    let nb = v.bss.len() as int;
    let ns = v.symbols.len() as int;
    let nr = v.relocations.len() as int;
    let e = Seq::<char>::empty();
    assert(one_line(e));
    assert(safe_line(e));
    assert forall|i: int| 0 <= i < h.len() implies one_line(#[trigger] h[i]) && (1 <= i < h.len() - 1 ==> safe_line(h[i])) && (
    i < h.len() - 1 && h[i].len() > 0 ==> clean_line(h[i])) by {
        if 3 <= i < 3 + nb {
            let j = i - 3;
            assert(h[3 + j] == bss_text(v.bss[j].0, v.bss[j].1, v.bss[j].2));
        } else if 5 + nb <= i < 5 + nb + ns {
            let j = i - 5 - nb;
            assert(h[5 + nb + j] == symbol_text(v.symbols[j].0, v.symbols[j].1));
        } else if 7 + nb + ns <= i < 7 + nb + ns + nr {
            let j = i - 7 - nb - ns;
            assert(h[7 + nb + ns + j] == relocation_text(v.relocations[j]));
        }
    }
}

/// The lines of an encoded object's text that are not blank.
pub open spec fn content_of(v: ObjectValue) -> Seq<Seq<char>> {
    let h = header_lines(v);
    let nb = v.bss.len() as int;
    let ns = v.symbols.len() as int;
    let nr = v.relocations.len() as int;
    seq![h[0], h[2]] + h.subrange(3, 3 + nb) + seq![h[4 + nb]] + h.subrange(5 + nb, 5 + nb + ns) + seq![h[6 + nb + ns]]
        + h.subrange(7 + nb + ns, 7 + nb + ns + nr)
}

proof fn lemma_keep_three(x: Seq<char>, y: Seq<char>)
    requires
        clean_line(x),
        clean_line(y),
    ensures
        keep_content(seq![x, Seq::<char>::empty(), y]) == seq![x, y],
        keep_content(seq![Seq::<char>::empty(), y]) == seq![y],
{
    let e = Seq::<char>::empty();
    lemma_clean_kept(x);
    lemma_clean_kept(y);
    lemma_empty_dropped();
    lemma_keep_add(seq![x], seq![e]);
    assert(seq![x] + seq![e] =~= seq![x, e]);
    lemma_keep_add(seq![x, e], seq![y]);
    assert(seq![x, e] + seq![y] =~= seq![x, e, y]);
    assert(seq![x] + Seq::<Seq<char>>::empty() + seq![y] =~= seq![x, y]);
    lemma_keep_add(seq![e], seq![y]);
    assert(seq![e] + seq![y] =~= seq![e, y]);
    assert(Seq::<Seq<char>>::empty() + seq![y] =~= seq![y]);
}

/// The text before the `BYTES` line reads as the lines that are not blank.
proof fn lemma_content(v: ObjectValue)
    requires
        names_are_words(v),
        v.bss.len() <= usize::MAX,
        v.symbols.len() <= usize::MAX,
        v.relocations.len() <= usize::MAX,
    ensures
        content_lines(lines_text(header_lines(v).drop_last())) == content_of(v),
{
    lemma_header_shape(v);
    lemma_line_facts(v);
    lemma_row_lines(v);
    lemma_first_line();
    lemma_bss_count_line(v.bss.len());
    lemma_symbols_count_line(v.symbols.len());
    lemma_relocations_count_line(v.relocations.len());
    let h = header_lines(v);
    let m = h.drop_last();
    let nb = v.bss.len() as int;
    let ns = v.symbols.len() as int;
    let nr = v.relocations.len() as int;
    let e = Seq::<char>::empty();
    assert forall|i: int| 0 <= i < m.len() implies one_line(#[trigger] m[i]) by {
        assert(m[i] == h[i]);
    }
    lemma_pieces_lines(m);
    let s1 = seq![h[0], h[1], h[2]];
    let s2 = h.subrange(3, 3 + nb);
    let s3 = seq![h[3 + nb], h[4 + nb]];
    let s4 = h.subrange(5 + nb, 5 + nb + ns);
    let s5 = seq![h[5 + nb + ns], h[6 + nb + ns]];
    let s6 = h.subrange(7 + nb + ns, 7 + nb + ns + nr);
    let s7 = seq![h[7 + nb + ns + nr], e];
    assert(m.push(e) =~= s1 + s2 + s3 + s4 + s5 + s6 + s7);
    lemma_keep_three(h[0], h[2]);
    lemma_keep_three(h[0], h[4 + nb]);
    lemma_keep_three(h[0], h[6 + nb + ns]);
    assert forall|i: int| 0 <= i < s2.len() implies clean_line(#[trigger] s2[i]) by {
        assert(s2[i] == h[3 + i]);
    }
    assert forall|i: int| 0 <= i < s4.len() implies clean_line(#[trigger] s4[i]) by {
        assert(s4[i] == h[5 + nb + i]);
    }
    assert forall|i: int| 0 <= i < s6.len() implies clean_line(#[trigger] s6[i]) by {
        assert(s6[i] == h[7 + nb + ns + i]);
    }
    lemma_keep_clean(s2);
    lemma_keep_clean(s4);
    lemma_keep_clean(s6);
    lemma_empty_dropped();
    lemma_keep_add(seq![e], seq![e]);
    assert(seq![e] + seq![e] =~= s7);
    lemma_keep_add(s1, s2);
    lemma_keep_add(s1 + s2, s3);
    lemma_keep_add(s1 + s2 + s3, s4);
    lemma_keep_add(s1 + s2 + s3 + s4, s5);
    lemma_keep_add(s1 + s2 + s3 + s4 + s5, s6);
    lemma_keep_add(s1 + s2 + s3 + s4 + s5 + s6, s7);
    assert(Seq::<Seq<char>>::empty() + Seq::<Seq<char>>::empty() =~= Seq::<Seq<char>>::empty());
    assert(keep_content(m.push(e)) =~= content_of(v));
}

/// The tables read from the lines that are not blank are the object's.
proof fn lemma_tables(v: ObjectValue)
    requires
        names_are_words(v),
        v.bss.len() <= usize::MAX,
        v.symbols.len() <= usize::MAX,
        v.relocations.len() <= usize::MAX,
    ensures
        parse_tables(content_of(v)) == Ok::<(ObjectValue, int), ObjectFault>(
            (ObjectValue { bytes: Seq::empty(), ..v }, content_of(v).len() as int),
        ),
{
    lemma_header_shape(v);
    lemma_bss_count_line(v.bss.len());
    lemma_symbols_count_line(v.symbols.len());
    lemma_relocations_count_line(v.relocations.len());
    let h = header_lines(v);
    let c = content_of(v);
    let nb = v.bss.len() as int;
    let ns = v.symbols.len() as int;
    let nr = v.relocations.len() as int;
    assert(c.len() == 4 + nb + ns + nr);
    assert(c[0] == "VIVO 1"@);
    assert(c[1] == h[2]);
    assert(c[2 + nb] == h[4 + nb]);
    assert(c[3 + nb + ns] == h[6 + nb + ns]);
    assert forall|i: int| 0 <= i < nb implies c[2 + i] == bss_text(#[trigger] v.bss[i].0, v.bss[i].1, v.bss[i].2) by {
        assert(c[2 + i] == h[3 + i]);
    }
    assert forall|i: int| 0 <= i < ns implies c[3 + nb + i] == symbol_text(#[trigger] v.symbols[i].0, v.symbols[i].1) by {
        assert(c[3 + nb + i] == h[5 + nb + i]);
    }
    assert forall|i: int| 0 <= i < nr implies c[4 + nb + ns + i] == relocation_text(#[trigger] v.relocations[i]) by {
        assert(c[4 + nb + ns + i] == h[7 + nb + ns + i]);
    }
    lemma_bss_rows(c, 2, v.bss, v.bss.len());
    lemma_symbol_rows(c, 3 + nb, v.symbols, v.symbols.len());
    lemma_relocation_rows(c, 4 + nb + ns, v.relocations, v.relocations.len());
    assert(v.bss.take(nb) =~= v.bss);
    assert(v.symbols.take(ns) =~= v.symbols);
    assert(v.relocations.take(nr) =~= v.relocations);
}

/// An encoded object: the text before the `BYTES` line, that line, a line
/// feed, the section bytes.
proof fn lemma_encoded_split(v: ObjectValue)
    requires
        names_are_words(v),
        v.bytes.len() <= u32::MAX,
        v.bss.len() <= usize::MAX,
        v.symbols.len() <= usize::MAX,
        v.relocations.len() <= usize::MAX,
    ensures
        header_lines(v).last() == "BYTES "@ + hex8(v.bytes.len() as u32),
        encoded(v) == encode_utf8(lines_text(header_lines(v).drop_last())) + encode_utf8(header_lines(v).last())
            + seq![0x0Au8] + v.bytes,
        encode_utf8(header_lines(v).last()).len() == 14,
        forall|k: int| 0 <= k < 14 ==> #[trigger] encode_utf8(header_lines(v).last())[k] == (header_lines(v).last()[k] as u32) as u8,
{
    let h = header_lines(v);
    lemma_header_shape(v);
    let nall = (v.bss.len() + v.symbols.len() + v.relocations.len()) as int;
    assert(h.last() == h[8 + nall]);
    lemma_bytes_line(v.bytes.len() as u32);
    lemma_lines_text_bytes(h);
    lemma_ascii_text(h.last());
}

/// The marker of an encoded object is the line feed before its `BYTES` line.
proof fn lemma_marker(v: ObjectValue)
    requires
        names_are_words(v),
        v.bytes.len() <= u32::MAX,
        v.bss.len() <= usize::MAX,
        v.symbols.len() <= usize::MAX,
        v.relocations.len() <= usize::MAX,
    ensures
        bytes_marker(encoded(v)) == Some(encode_utf8(lines_text(header_lines(v).drop_last())).len() as int),
{
    let h = header_lines(v);
    let m = h.drop_last();
    lemma_line_facts(v);
    lemma_encoded_split(v);
    lemma_bytes_line(v.bytes.len() as u32);
    let y = h.last();
    let data = encoded(v);
    let em = encode_utf8(lines_text(m));
    let ey = encode_utf8(y);
    let a = em.len() as int;
    assert forall|i: int| 0 <= i < m.len() implies one_line(#[trigger] m[i]) by {
        assert(m[i] == h[i]);
    }
    assert forall|i: int| 1 <= i < m.len() implies safe_line(#[trigger] m[i]) by {
        assert(m[i] == h[i]);
    }
    assert(data.subrange(0, a) =~= em);
    lemma_search_lines(m, data);
    assert forall|k: int| 0 <= k < 14 implies data[a + k] == #[trigger] ey[k] by {}
    assert(y.subrange(0, 6) == seq!['B', 'Y', 'T', 'E', 'S', ' ']);
    assert(y[0] == 'B' && y[1] == 'Y' && y[2] == 'T' && y[3] == 'E' && y[4] == 'S' && y[5] == ' ') by {
        assert(y[0] == y.subrange(0, 6)[0]);
        assert(y[1] == y.subrange(0, 6)[1]);
        assert(y[2] == y.subrange(0, 6)[2]);
        assert(y[3] == y.subrange(0, 6)[3]);
        assert(y[4] == y.subrange(0, 6)[4]);
        assert(y[5] == y.subrange(0, 6)[5]);
    }
    assert(ey[0] == 0x42u8 && ey[1] == 0x59u8 && ey[2] == 0x54u8 && ey[3] == 0x45u8 && ey[4] == 0x53u8 && ey[5] == 0x20u8);
    assert(marker_at(data, a - 1));
    assert(search_marker(data, a - 1) == Some(a - 1));
}

/// After the marker: the `BYTES` line, a line feed, the section bytes.
proof fn lemma_after_marker(v: ObjectValue)
    requires
        names_are_words(v),
        v.bytes.len() <= u32::MAX,
        v.bss.len() <= usize::MAX,
        v.symbols.len() <= usize::MAX,
        v.relocations.len() <= usize::MAX,
    ensures
        ({
            let data = encoded(v);
            let a = encode_utf8(lines_text(header_lines(v).drop_last())).len() as int;
            &&& next_line_start(data, a) == Some(a + 15)
            &&& data.subrange(0, a) == encode_utf8(lines_text(header_lines(v).drop_last()))
            &&& data.subrange(a, a + 14) == encode_utf8(header_lines(v).last())
            &&& data.subrange(a + 15, data.len() as int) == v.bytes
        }),
{
    let h = header_lines(v);
    lemma_line_facts(v);
    lemma_encoded_split(v);
    let y = h.last();
    let data = encoded(v);
    let em = encode_utf8(lines_text(h.drop_last()));
    let ey = encode_utf8(y);
    let a = em.len() as int;
    assert(one_line(y)) by {
        assert(one_line(h[h.len() - 1]));
    }
    lemma_bytes_line(v.bytes.len() as u32);
    assert forall|k: int| a <= k < a + 14 implies #[trigger] data[k] != 0x0Au8 by {
        let c = y[k - a];
        assert(data[k] == ey[k - a]);
        assert((c as u32) < 0x80);
        if data[k] == 0x0Au8 {
            assert(('\n' as u32) == 0x0Au32);
            lemma_ascii_byte_is(c, 0x0Au8, '\n');
        }
    }
    lemma_next_line_skips(data, a, a + 14);
    assert(data[a + 14] == 0x0Au8);
    assert(next_line_start(data, a + 14) == Some(a + 15));
    assert(data.subrange(0, a) =~= em);
    assert(data.subrange(a, a + 14) =~= ey);
    assert(data.subrange(a + 15, data.len() as int) =~= v.bytes);
}

/// An object written is read back as the same object, whenever its names are
/// words (the rows separate their fields by whitespace) and its section's
/// length fits the eight hex digits of the `BYTES` line.
pub proof fn lemma_object_round_trip(v: ObjectValue)
    requires
        names_are_words(v),
        v.bytes.len() <= u32::MAX,
        v.bss.len() <= usize::MAX,
        v.symbols.len() <= usize::MAX,
        v.relocations.len() <= usize::MAX,
    ensures
        parse_object(encoded(v)) == Ok::<ObjectValue, ObjectFault>(v),
{
    let h = header_lines(v);
    let data = encoded(v);
    let em = encode_utf8(lines_text(h.drop_last()));
    let a = em.len() as int;
    lemma_marker(v);
    lemma_after_marker(v);
    lemma_encoded_split(v);
    lemma_line_facts(v);
    lemma_bytes_line(v.bytes.len() as u32);
    encode_utf8_valid_utf8(lines_text(h.drop_last()));
    encode_utf8_decode_utf8(lines_text(h.drop_last()));
    encode_utf8_valid_utf8(h.last());
    encode_utf8_decode_utf8(h.last());
    lemma_content(v);
    lemma_tables(v);
    lemma_clean_kept(h.last());
    assert(byte_count_header(trim(decode_utf8(data.subrange(a, a + 15 - 1)))) == Ok::<nat, Seq<char>>(v.bytes.len()));
    assert(content_lines(decode_utf8(data.subrange(0, a))) == content_of(v));
}

} // verus!
