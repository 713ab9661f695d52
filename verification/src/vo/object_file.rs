use vstd::prelude::*;
use vstd::string::StringSliceAdditionalSpecFns;
use vstd::utf8::{decode_utf8, encode_utf8, valid_utf8};

use crate::text::{
    chars_equal, chars_equal_str, chars_of, parse_usize_chars, dec_digits, hex8, int_error_text, is_ws, parse_unsigned, push_decimal,
    push_hex8, push_int_error, push_str,
    split_whitespace, string_from_chars, trim, trim_chars, words, IntParseError,
};

use super::bss::{bss_from_chars, bss_text, parse_bss, Bss, BssParseError};
use super::error::VoError;
use super::relocation::{
    fault_reported, fields_of, parse_relocation, relocation_from_chars, relocation_text, Relocation, RelocationFault,
    RelocationFields,
};
use super::symbol::{parse_symbol, symbol_from_chars, symbol_text, Symbol, SymbolParseError};

verus! {

/// A relocatable object: BSS requests, symbols, relocations and section bytes.
#[derive(Debug, Clone, PartialEq, Eq)]
pub struct ObjectFile {
    pub bss: Vec<Bss>,
    pub symbols: Vec<Symbol>,
    pub relocations: Vec<Relocation>,
    pub bytes: Vec<u8>,
}

/// The plain values an object holds.
pub ghost struct ObjectValue {
    pub bss: Seq<(u32, u32, Seq<char>)>,
    pub symbols: Seq<(u32, Seq<char>)>,
    pub relocations: Seq<RelocationFields>,
    pub bytes: Seq<u8>,
}

pub open spec fn bss_value(b: Bss) -> (u32, u32, Seq<char>) {
    (b.alignment, b.size, b.name@)
}

pub open spec fn symbol_value(s: Symbol) -> (u32, Seq<char>) {
    (s.offset, s.name@)
}

pub open spec fn object_value(o: ObjectFile) -> ObjectValue {
    ObjectValue {
        bss: o.bss@.map_values(|b: Bss| bss_value(b)),
        symbols: o.symbols@.map_values(|s: Symbol| symbol_value(s)),
        relocations: o.relocations@.map_values(|r: Relocation| fields_of(r)),
        bytes: o.bytes@,
    }
}

/// Lines of text, each followed by a line feed.
pub open spec fn lines_text(lines: Seq<Seq<char>>) -> Seq<char>
    decreases lines.len(),
{
    if lines.len() == 0 {
        Seq::empty()
    } else {
        lines_text(lines.drop_last()) + lines.last() + seq!['\n']
    }
}

/// The text part of an encoded object: the `VIVO 1` header, then for each
/// table a line with its name and row count, its rows and an empty line, then
/// the byte count in hex.
pub open spec fn header_lines(v: ObjectValue) -> Seq<Seq<char>> {
    seq!["VIVO 1"@, Seq::empty(), "BSS "@ + dec_digits(v.bss.len())]
        + v.bss.map_values(|b: (u32, u32, Seq<char>)| bss_text(b.0, b.1, b.2))
        + seq![Seq::empty(), "SYMBOLS "@ + dec_digits(v.symbols.len())]
        + v.symbols.map_values(|s: (u32, Seq<char>)| symbol_text(s.0, s.1))
        + seq![Seq::empty(), "RELOCATIONS "@ + dec_digits(v.relocations.len())]
        + v.relocations.map_values(|r: RelocationFields| relocation_text(r))
        + seq![Seq::empty(), "BYTES "@ + hex8(v.bytes.len() as u32)]
}

/// The bytes of an encoded object: the UTF-8 header text, then the section bytes.
pub open spec fn encoded(v: ObjectValue) -> Seq<u8> {
    encode_utf8(lines_text(header_lines(v))) + v.bytes
}

/// Whether `data` holds a line feed then `BYTES ` at `i`.
pub open spec fn marker_at(data: Seq<u8>, i: int) -> bool {
    &&& 0 <= i
    &&& i + 7 <= data.len()
    &&& data[i] == 0x0Au8
    &&& data[i + 1] == 0x42u8
    &&& data[i + 2] == 0x59u8
    &&& data[i + 3] == 0x54u8
    &&& data[i + 4] == 0x45u8
    &&& data[i + 5] == 0x53u8
    &&& data[i + 6] == 0x20u8
}

/// The first line-feed-and-`BYTES ` at or after `i`.
pub open spec fn search_marker(data: Seq<u8>, i: int) -> Option<int>
    decreases data.len() - i,
{
    if i < 0 || i + 7 > data.len() {
        None
    } else if marker_at(data, i) {
        Some(i)
    } else {
        search_marker(data, i + 1)
    }
}

/// Where the `BYTES` line starts: just after the first line feed that
/// precedes `BYTES `, or at the start when the data begins with `BYTES `.
pub open spec fn bytes_marker(data: Seq<u8>) -> Option<int> {
    match search_marker(data, 0) {
        Some(i) => Some(i + 1),
        None => if data.len() >= 6 && data.subrange(0, 6) == seq![0x42u8, 0x59u8, 0x54u8, 0x45u8, 0x53u8, 0x20u8] {
            Some(0)
        } else {
            None
        },
    }
}

/// The position after the first line feed at or after `i`.
pub open spec fn next_line_start(data: Seq<u8>, i: int) -> Option<int>
    decreases data.len() - i,
{
    if i < 0 || i >= data.len() {
        None
    } else if data[i] == 0x0Au8 {
        Some(i + 1)
    } else {
        next_line_start(data, i + 1)
    }
}

/// The pieces of `s` between line feeds, and the piece being read.
pub open spec fn pieces_acc(s: Seq<char>) -> (Seq<Seq<char>>, Seq<char>)
    decreases s.len(),
{
    if s.len() == 0 {
        (Seq::empty(), Seq::empty())
    } else {
        let (done, cur) = pieces_acc(s.drop_last());
        if s.last() == '\n' {
            (done.push(cur), Seq::empty())
        } else {
            (done, cur.push(s.last()))
        }
    }
}

/// A line without the carriage return that may end it.
pub open spec fn strip_cr(l: Seq<char>) -> Seq<char> {
    if l.len() > 0 && l.last() == '\r' {
        l.drop_last()
    } else {
        l
    }
}

/// The lines that are not blank, in order, without carriage returns.
pub open spec fn keep_content(ls: Seq<Seq<char>>) -> Seq<Seq<char>>
    decreases ls.len(),
{
    if ls.len() == 0 {
        Seq::empty()
    } else {
        let rest = keep_content(ls.drop_last());
        if trim(ls.last()).len() > 0 {
            rest.push(strip_cr(ls.last()))
        } else {
            rest
        }
    }
}

/// The lines of `s` that are not blank, in order, without carriage returns.
pub open spec fn content_lines(s: Seq<char>) -> Seq<Seq<char>> {
    let (done, cur) = pieces_acc(s);
    keep_content(done.push(cur))
}

/// Why an object cannot be read.
pub ghost enum ObjectFault {
    /// An `InvalidObject` error with this message.
    Invalid(Seq<char>),
    /// An `InvalidObject` error whose message is this text, then what the
    /// UTF-8 decoder says of these bytes.
    NotUtf8(Seq<char>, Seq<u8>),
    Bss(BssParseError),
    Symbol(SymbolParseError),
    Relocation(Seq<char>, RelocationFault),
}

/// A count line: the expected name and a decimal count, or the message that
/// says what is wrong with it.
pub open spec fn count_header(line: Seq<char>, name: Seq<char>) -> Result<nat, Seq<char>> {
    let w = words(line);
    if w.len() != 2 || w[0] != name {
        Err("expected `"@ + name + " <count>`, found `"@ + line + "`"@)
    } else {
        match parse_unsigned(w[1], 10, usize::MAX as int) {
            Ok(n) => Ok(n as nat),
            Err(e) => Err("invalid "@ + name + " count `"@ + w[1] + "`: "@ + int_error_text(e)),
        }
    }
}

/// The `BYTES` line: the name and a hex count, or the message that says what
/// is wrong with it.
pub open spec fn byte_count_header(line: Seq<char>) -> Result<nat, Seq<char>> {
    let w = words(line);
    if w.len() != 2 || w[0] != "BYTES"@ {
        Err("expected `BYTES <byte_count>`, found `"@ + line + "`"@)
    } else {
        match parse_unsigned(w[1], 16, usize::MAX as int) {
            Ok(n) => Ok(n as nat),
            Err(e) => Err("invalid byte count `"@ + w[1] + "`: "@ + int_error_text(e)),
        }
    }
}

/// `count` BSS rows starting at line `at`.
pub open spec fn bss_rows(lines: Seq<Seq<char>>, at: int, count: nat) -> Result<Seq<(u32, u32, Seq<char>)>, ObjectFault>
    decreases count,
{
    if count == 0 {
        Ok(Seq::empty())
    } else {
        match bss_rows(lines, at, (count - 1) as nat) {
            Err(f) => Err(f),
            Ok(rows) => if at + count - 1 >= lines.len() {
                Err(ObjectFault::Invalid("missing bss row"@))
            } else {
                match parse_bss(lines[at + count - 1]) {
                    Err(e) => Err(ObjectFault::Bss(e)),
                    Ok(b) => Ok(rows.push(b)),
                }
            },
        }
    }
}

/// `count` symbol rows starting at line `at`.
pub open spec fn symbol_rows(lines: Seq<Seq<char>>, at: int, count: nat) -> Result<Seq<(u32, Seq<char>)>, ObjectFault>
    decreases count,
{
    if count == 0 {
        Ok(Seq::empty())
    } else {
        match symbol_rows(lines, at, (count - 1) as nat) {
            Err(f) => Err(f),
            Ok(rows) => if at + count - 1 >= lines.len() {
                Err(ObjectFault::Invalid("missing symbol row"@))
            } else {
                match parse_symbol(lines[at + count - 1]) {
                    Err(e) => Err(ObjectFault::Symbol(e)),
                    Ok(s) => Ok(rows.push(s)),
                }
            },
        }
    }
}

/// `count` relocation rows starting at line `at`.
pub open spec fn relocation_rows(lines: Seq<Seq<char>>, at: int, count: nat) -> Result<Seq<RelocationFields>, ObjectFault>
    decreases count,
{
    if count == 0 {
        Ok(Seq::empty())
    } else {
        match relocation_rows(lines, at, (count - 1) as nat) {
            Err(f) => Err(f),
            Ok(rows) => if at + count - 1 >= lines.len() {
                Err(ObjectFault::Invalid("missing relocation row"@))
            } else {
                match parse_relocation(lines[at + count - 1]) {
                    Err(f) => Err(ObjectFault::Relocation(lines[at + count - 1], f)),
                    Ok(r) => Ok(rows.push(r)),
                }
            },
        }
    }
}

/// The tables and the line after them, read from the content lines.
pub open spec fn parse_tables(lines: Seq<Seq<char>>) -> Result<(ObjectValue, int), ObjectFault> {
    if lines.len() < 1 {
        Err(ObjectFault::Invalid("missing object header"@))
    } else if lines[0] != "VIVO 1"@ {
        Err(ObjectFault::Invalid("invalid object header `"@ + lines[0] + "`"@))
    } else if lines.len() < 2 {
        Err(ObjectFault::Invalid("missing BSS header"@))
    } else {
        match count_header(lines[1], "BSS"@) {
            Err(m) => Err(ObjectFault::Invalid(m)),
            Ok(nb) => match bss_rows(lines, 2, nb) {
                Err(f) => Err(f),
                Ok(bss) => {
                    let at_s: int = 2 + nb as int;
                    if at_s >= lines.len() {
                        Err(ObjectFault::Invalid("missing SYMBOLS header"@))
                    } else {
                        match count_header(lines[at_s], "SYMBOLS"@) {
                            Err(m) => Err(ObjectFault::Invalid(m)),
                            Ok(ns) => match symbol_rows(lines, at_s + 1, ns) {
                                Err(f) => Err(f),
                                Ok(symbols) => {
                                    let at_r: int = at_s + 1 + ns as int;
                                    if at_r >= lines.len() {
                                        Err(ObjectFault::Invalid("missing RELOCATIONS header"@))
                                    } else {
                                        match count_header(lines[at_r], "RELOCATIONS"@) {
                                            Err(m) => Err(ObjectFault::Invalid(m)),
                                            Ok(nr) => match relocation_rows(lines, at_r + 1, nr) {
                                                Err(f) => Err(f),
                                                Ok(relocations) => Ok(
                                                    (ObjectValue { bss, symbols, relocations, bytes: Seq::empty() }, at_r + 1 + nr),
                                                ),
                                            },
                                        }
                                    }
                                },
                            },
                        }
                    }
                },
            },
        }
    }
}

/// What reading the bytes of an object gives.
pub open spec fn parse_object(data: Seq<u8>) -> Result<ObjectValue, ObjectFault> {
    match bytes_marker(data) {
        None => Err(ObjectFault::Invalid("missing BYTES marker"@)),
        Some(marker) => if !valid_utf8(data.subrange(0, marker)) {
            Err(ObjectFault::NotUtf8("metadata is not UTF-8: "@, data.subrange(0, marker)))
        } else {
            match next_line_start(data, marker) {
                None => Err(ObjectFault::Invalid("missing bytecode after BYTES marker"@)),
                Some(start) => {
                    let lines = content_lines(decode_utf8(data.subrange(0, marker)));
                    match parse_tables(lines) {
                        Err(f) => Err(f),
                        Ok((v, next)) => {
                            let header = data.subrange(marker, start - 1);
                            if !valid_utf8(header) {
                                Err(ObjectFault::NotUtf8("BYTES header is not UTF-8: "@, header))
                            } else {
                                match byte_count_header(trim(decode_utf8(header))) {
                                    Err(m) => Err(ObjectFault::Invalid(m)),
                                    Ok(count) => {
                                        let payload = data.subrange(start, data.len() as int);
                                        if payload.len() != count {
                                            Err(ObjectFault::Invalid("byte count mismatch: expected "@ + dec_digits(count)
                                                + ", found "@ + dec_digits(payload.len())))
                                        } else if next < lines.len() {
                                            Err(ObjectFault::Invalid("unexpected metadata after relocation table"@))
                                        } else {
                                            Ok(ObjectValue { bytes: payload, ..v })
                                        }
                                    },
                                }
                            }
                        },
                    }
                },
            }
        }
    }
}

/// The error a read fault is reported as.
pub open spec fn object_fault_reported(f: ObjectFault, e: VoError) -> bool {
    match f {
        ObjectFault::Invalid(m) => e matches VoError::InvalidObject(t) && t@ == m,
        ObjectFault::NotUtf8(p, bytes) => e matches VoError::InvalidObject(t) && t@ == p + utf8_error_text(bytes),
        ObjectFault::Bss(b) => e == VoError::BssError(b),
        ObjectFault::Symbol(s) => e == VoError::SymbolError(s),
        ObjectFault::Relocation(row, rf) => fault_reported(row, rf, e),
    }
}

/// The text of the standard library's `Utf8Error` for bytes that are not
/// UTF-8: where the valid prefix ends and how the bytes after it fail, a
/// function of the bytes alone.
pub uninterp spec fn utf8_error_text(bytes: Seq<u8>) -> Seq<char>;

/// The bytes as a string when they are UTF-8, as the standard library's
/// `str::from_utf8` checks: it accepts exactly the valid UTF-8 sequences and
/// then views the same bytes as a string. For other bytes it gives the text
/// of its error, named `utf8_error_text`.
#[verifier::external_body]
fn utf8_str(bytes: &[u8]) -> (r: Result<&str, String>)
    ensures
        r is Ok <==> valid_utf8(bytes@),
        r matches Ok(s) ==> s.spec_bytes() == bytes@,
        r matches Err(e) ==> e@ == utf8_error_text(bytes@),
{
    std::str::from_utf8(bytes).map_err(|e| e.to_string())
}

/// The characters that UTF-8 bytes encode, or the decoder's description of
/// why they are not UTF-8.
fn decode_chars(bytes: &[u8]) -> (r: Result<Vec<char>, String>)
    ensures
        r is Ok <==> valid_utf8(bytes@),
        r matches Ok(c) ==> c@ == decode_utf8(bytes@),
        r matches Err(e) ==> e@ == utf8_error_text(bytes@),
{
    match utf8_str(bytes) {
        Ok(s) => {
            proof {
                vstd::utf8::encode_utf8_decode_utf8(s@);
            }
            Ok(chars_of(s))
        },
        Err(e) => Err(e),
    }
}

fn find_bytes_marker(data: &[u8]) -> (r: Option<usize>)
    ensures
        r matches Some(i) ==> bytes_marker(data@) == Some(i as int),
        r is None ==> bytes_marker(data@) is None,
{
    let mut i: usize = 0;
    while data.len() >= 7 && i <= data.len() - 7
        invariant
            search_marker(data@, 0) == search_marker(data@, i as int),
            i <= data@.len(),
        decreases data@.len() - i,
    {
        if data[i] == 0x0A && data[i + 1] == 0x42 && data[i + 2] == 0x59 && data[i + 3] == 0x54 && data[i + 4] == 0x45
            && data[i + 5] == 0x53 && data[i + 6] == 0x20 {
            return Some(i + 1);
        }
        i += 1;
    }
    if data.len() >= 6 && data[0] == 0x42 && data[1] == 0x59 && data[2] == 0x54 && data[3] == 0x45 && data[4] == 0x53
        && data[5] == 0x20 {
        assert(data@.subrange(0, 6) =~= seq![0x42u8, 0x59u8, 0x54u8, 0x45u8, 0x53u8, 0x20u8]);
        return Some(0);
    }
    proof {
        if data@.len() >= 6 && data@.subrange(0, 6) == seq![0x42u8, 0x59u8, 0x54u8, 0x45u8, 0x53u8, 0x20u8] {
            assert(data@[0] == data@.subrange(0, 6)[0]);
            assert(data@[1] == data@.subrange(0, 6)[1]);
            assert(data@[2] == data@.subrange(0, 6)[2]);
            assert(data@[3] == data@.subrange(0, 6)[3]);
            assert(data@[4] == data@.subrange(0, 6)[4]);
            assert(data@[5] == data@.subrange(0, 6)[5]);
        }
    }
    None
}

fn find_next_line_start(data: &[u8], from: usize) -> (r: Option<usize>)
    ensures
        r matches Some(i) ==> next_line_start(data@, from as int) == Some(i as int),
        r is None ==> next_line_start(data@, from as int) is None,
{
    let mut i: usize = from;
    while i < data.len()
        invariant
            next_line_start(data@, from as int) == next_line_start(data@, i as int),
            from <= i,
        decreases data@.len() - i,
    {
        if data[i] == 0x0A {
            return Some(i + 1);
        }
        i += 1;
    }
    None
}

/// The lines of `chars` that are not blank, without carriage returns.
fn content_lines_of(chars: &[char]) -> (r: Vec<Vec<char>>)
    ensures
        r@.len() == content_lines(chars@).len(),
        forall|i: int| 0 <= i < r@.len() ==> #[trigger] r@[i]@ == content_lines(chars@)[i],
{
    let mut kept: Vec<Vec<char>> = Vec::new();
    let mut cur: Vec<char> = Vec::new();
    let mut i: usize = 0;
    while i < chars.len()
        invariant
            i <= chars@.len(),
            kept@.len() == keep_content(pieces_acc(chars@.take(i as int)).0).len(),
            forall|k: int| 0 <= k < kept@.len() ==> #[trigger] kept@[k]@ == keep_content(pieces_acc(chars@.take(i as int)).0)[k],
            cur@ == pieces_acc(chars@.take(i as int)).1,
        decreases chars@.len() - i,
    {
        assert(chars@.take(i + 1).drop_last() =~= chars@.take(i as int));
        let c = chars[i];
        if c == '\n' {
            let ghost done = pieces_acc(chars@.take(i as int)).0;
            assert(done.push(cur@).drop_last() =~= done);
            keep_line(&mut kept, cur);
            cur = Vec::new();
        } else {
            cur.push(c);
        }
        i += 1;
    }
    assert(chars@.take(chars@.len() as int) =~= chars@);
    let ghost done = pieces_acc(chars@).0;
    assert(done.push(cur@).drop_last() =~= done);
    keep_line(&mut kept, cur);
    kept
}

/// Appends a line to the kept lines when it is not blank, without its carriage return.
fn keep_line(kept: &mut Vec<Vec<char>>, line: Vec<char>)
    ensures
        trim(line@).len() > 0 ==> final(kept)@.len() == old(kept)@.len() + 1 && final(kept)@[old(kept)@.len() as int]@
            == strip_cr(line@),
        trim(line@).len() == 0 ==> final(kept)@.len() == old(kept)@.len(),
        forall|k: int| 0 <= k < old(kept)@.len() ==> #[trigger] final(kept)@[k] == old(kept)@[k],
{
    let trimmed = trim_chars(line.as_slice());
    if trimmed.len() > 0 {
        let ghost original = line@;
        let mut line = line;
        if line.len() > 0 && line[line.len() - 1] == '\r' {
            line.pop();
            assert(line@ =~= strip_cr(original));
        }
        kept.push(line);
    }
}

/// An `InvalidObject` error with this message.
fn invalid(message: &str) -> (e: VoError)
    ensures
        e matches VoError::InvalidObject(t) && t@ == message@,
{
    VoError::InvalidObject(string_from_chars(chars_of(message).as_slice()))
}

/// An `InvalidObject` error whose message is `before`, the line and a backquote.
fn invalid_quoted(before: &str, line: &[char]) -> (e: VoError)
    ensures
        e matches VoError::InvalidObject(t) && t@ == before@ + line@ + "`"@,
{
    let mut text = chars_of(before);
    text.extend_from_slice(line);
    push_str(&mut text, "`");
    VoError::InvalidObject(string_from_chars(text.as_slice()))
}

/// An `InvalidObject` error whose message is `before`, then the decoder's text.
fn invalid_utf8(before: &str, reason: &String) -> (e: VoError)
    ensures
        e matches VoError::InvalidObject(t) && t@ == before@ + reason@,
{
    let mut text = chars_of(before);
    push_str(&mut text, reason.as_str());
    VoError::InvalidObject(string_from_chars(text.as_slice()))
}

/// The count of a table's header line.
fn count_header_of(line: &[char], name: &str) -> (r: Result<usize, VoError>)
    ensures
        match count_header(line@, name@) {
            Ok(n) => n <= usize::MAX && r == Ok::<usize, VoError>(n as usize),
            Err(m) => r matches Err(e) && e matches VoError::InvalidObject(t) && t@ == m,
        },
{
    let fields = split_whitespace(line);
    if fields.len() != 2 || !chars_equal_str(fields[0].as_slice(), name) {
        let mut text = chars_of("expected `");
        push_str(&mut text, name);
        push_str(&mut text, " <count>`, found `");
        text.extend_from_slice(line);
        push_str(&mut text, "`");
        assert(text@ =~= "expected `"@ + name@ + " <count>`, found `"@ + line@ + "`"@);
        return Err(VoError::InvalidObject(string_from_chars(text.as_slice())));
    }
    match parse_usize_chars(fields[1].as_slice(), 10) {
        Ok(n) => Ok(n),
        Err(e) => {
            let mut text = chars_of("invalid ");
            push_str(&mut text, name);
            push_str(&mut text, " count `");
            text.extend_from_slice(fields[1].as_slice());
            push_str(&mut text, "`: ");
            push_int_error(&mut text, e);
            assert(text@ =~= "invalid "@ + name@ + " count `"@ + fields@[1]@ + "`: "@ + int_error_text(e));
            Err(VoError::InvalidObject(string_from_chars(text.as_slice())))
        },
    }
}

/// The byte count of the `BYTES` line.
fn byte_count_of(line: &[char]) -> (r: Result<usize, VoError>)
    ensures
        match byte_count_header(line@) {
            Ok(n) => n <= usize::MAX && r == Ok::<usize, VoError>(n as usize),
            Err(m) => r matches Err(e) && e matches VoError::InvalidObject(t) && t@ == m,
        },
{
    let fields = split_whitespace(line);
    if fields.len() != 2 || !chars_equal_str(fields[0].as_slice(), "BYTES") {
        let mut text = chars_of("expected `BYTES <byte_count>`, found `");
        text.extend_from_slice(line);
        push_str(&mut text, "`");
        assert(text@ =~= "expected `BYTES <byte_count>`, found `"@ + line@ + "`"@);
        return Err(VoError::InvalidObject(string_from_chars(text.as_slice())));
    }
    match parse_usize_chars(fields[1].as_slice(), 16) {
        Ok(n) => Ok(n),
        Err(e) => {
            let mut text = chars_of("invalid byte count `");
            text.extend_from_slice(fields[1].as_slice());
            push_str(&mut text, "`: ");
            push_int_error(&mut text, e);
            assert(text@ =~= "invalid byte count `"@ + fields@[1]@ + "`: "@ + int_error_text(e));
            Err(VoError::InvalidObject(string_from_chars(text.as_slice())))
        },
    }
}

pub open spec fn line_views(lines: Seq<Vec<char>>) -> Seq<Seq<char>> {
    lines.map_values(|l: Vec<char>| l@)
}

proof fn lemma_bss_rows_stay_failed(lines: Seq<Seq<char>>, at: int, k: nat, n: nat)
    requires
        k <= n,
        bss_rows(lines, at, k) is Err,
    ensures
        bss_rows(lines, at, n) == bss_rows(lines, at, k),
    decreases n - k,
{
    if k < n {
        lemma_bss_rows_stay_failed(lines, at, k, (n - 1) as nat);
    }
}

proof fn lemma_symbol_rows_stay_failed(lines: Seq<Seq<char>>, at: int, k: nat, n: nat)
    requires
        k <= n,
        symbol_rows(lines, at, k) is Err,
    ensures
        symbol_rows(lines, at, n) == symbol_rows(lines, at, k),
    decreases n - k,
{
    if k < n {
        lemma_symbol_rows_stay_failed(lines, at, k, (n - 1) as nat);
    }
}

proof fn lemma_relocation_rows_stay_failed(lines: Seq<Seq<char>>, at: int, k: nat, n: nat)
    requires
        k <= n,
        relocation_rows(lines, at, k) is Err,
    ensures
        relocation_rows(lines, at, n) == relocation_rows(lines, at, k),
    decreases n - k,
{
    if k < n {
        lemma_relocation_rows_stay_failed(lines, at, k, (n - 1) as nat);
    }
}

fn read_bss_rows(lines: &Vec<Vec<char>>, at: usize, count: usize) -> (r: Result<Vec<Bss>, VoError>)
    requires
        at <= lines@.len(),
    ensures
        match bss_rows(line_views(lines@), at as int, count as nat) {
            Ok(v) => r matches Ok(b) && b@.map_values(|x: Bss| bss_value(x)) == v,
            Err(f) => r matches Err(e) && object_fault_reported(f, e),
        },
{
    let ghost gl = line_views(lines@);
    let mut rows: Vec<Bss> = Vec::new();
    assert(rows@.map_values(|x: Bss| bss_value(x)) =~= Seq::empty());
    let mut k: usize = 0;
    while k < count
        invariant
            at <= lines@.len(),
            gl == line_views(lines@),
            k <= count,
            bss_rows(gl, at as int, k as nat) == Ok::<Seq<(u32, u32, Seq<char>)>, ObjectFault>(
                rows@.map_values(|x: Bss| bss_value(x)),
            ),
        decreases count - k,
    {
        if k >= lines.len() - at {
            proof {
                lemma_bss_rows_stay_failed(gl, at as int, (k + 1) as nat, count as nat);
            }
            return Err(invalid("missing bss row"));
        }
        assert(gl[at + k] == lines@[at + k]@);
        match bss_from_chars(lines[at + k].as_slice()) {
            Ok(b) => {
                let ghost before = rows@;
                rows.push(b);
                assert(rows@.map_values(|x: Bss| bss_value(x)) =~= before.map_values(|x: Bss| bss_value(x)).push(bss_value(b)));
            },
            Err(e) => {
                proof {
                    lemma_bss_rows_stay_failed(gl, at as int, (k + 1) as nat, count as nat);
                }
                return Err(VoError::BssError(e));
            },
        }
        k += 1;
    }
    Ok(rows)
}

fn read_symbol_rows(lines: &Vec<Vec<char>>, at: usize, count: usize) -> (r: Result<Vec<Symbol>, VoError>)
    requires
        at <= lines@.len(),
    ensures
        match symbol_rows(line_views(lines@), at as int, count as nat) {
            Ok(v) => r matches Ok(b) && b@.map_values(|x: Symbol| symbol_value(x)) == v,
            Err(f) => r matches Err(e) && object_fault_reported(f, e),
        },
{
    let ghost gl = line_views(lines@);
    let mut rows: Vec<Symbol> = Vec::new();
    assert(rows@.map_values(|x: Symbol| symbol_value(x)) =~= Seq::empty());
    let mut k: usize = 0;
    while k < count
        invariant
            at <= lines@.len(),
            gl == line_views(lines@),
            k <= count,
            symbol_rows(gl, at as int, k as nat) == Ok::<Seq<(u32, Seq<char>)>, ObjectFault>(
                rows@.map_values(|x: Symbol| symbol_value(x)),
            ),
        decreases count - k,
    {
        if k >= lines.len() - at {
            proof {
                lemma_symbol_rows_stay_failed(gl, at as int, (k + 1) as nat, count as nat);
            }
            return Err(invalid("missing symbol row"));
        }
        assert(gl[at + k] == lines@[at + k]@);
        match symbol_from_chars(lines[at + k].as_slice()) {
            Ok(s) => {
                let ghost before = rows@;
                rows.push(s);
                assert(rows@.map_values(|x: Symbol| symbol_value(x)) =~= before.map_values(|x: Symbol| symbol_value(x)).push(symbol_value(s)));
            },
            Err(e) => {
                proof {
                    lemma_symbol_rows_stay_failed(gl, at as int, (k + 1) as nat, count as nat);
                }
                return Err(VoError::SymbolError(e));
            },
        }
        k += 1;
    }
    Ok(rows)
}

fn read_relocation_rows(lines: &Vec<Vec<char>>, at: usize, count: usize) -> (r: Result<Vec<Relocation>, VoError>)
    requires
        at <= lines@.len(),
    ensures
        match relocation_rows(line_views(lines@), at as int, count as nat) {
            Ok(v) => r matches Ok(b) && b@.map_values(|x: Relocation| fields_of(x)) == v,
            Err(f) => r matches Err(e) && object_fault_reported(f, e),
        },
{
    let ghost gl = line_views(lines@);
    let mut rows: Vec<Relocation> = Vec::new();
    assert(rows@.map_values(|x: Relocation| fields_of(x)) =~= Seq::empty());
    let mut k: usize = 0;
    while k < count
        invariant
            at <= lines@.len(),
            gl == line_views(lines@),
            k <= count,
            relocation_rows(gl, at as int, k as nat) == Ok::<Seq<RelocationFields>, ObjectFault>(
                rows@.map_values(|x: Relocation| fields_of(x)),
            ),
        decreases count - k,
    {
        if k >= lines.len() - at {
            proof {
                lemma_relocation_rows_stay_failed(gl, at as int, (k + 1) as nat, count as nat);
            }
            return Err(invalid("missing relocation row"));
        }
        assert(gl[at + k] == lines@[at + k]@);
        match relocation_from_chars(lines[at + k].as_slice()) {
            Ok(rel) => {
                let ghost before = rows@;
                rows.push(rel);
                assert(rows@.map_values(|x: Relocation| fields_of(x)) =~= before.map_values(|x: Relocation| fields_of(x)).push(fields_of(rel)));
            },
            Err(e) => {
                proof {
                    lemma_relocation_rows_stay_failed(gl, at as int, (k + 1) as nat, count as nat);
                }
                return Err(e);
            },
        }
        k += 1;
    }
    Ok(rows)
}

/// The tables of an object, and the index of the first line after them.
fn read_tables(lines: &Vec<Vec<char>>) -> (r: Result<(Vec<Bss>, Vec<Symbol>, Vec<Relocation>, usize), VoError>)
    ensures
        match parse_tables(line_views(lines@)) {
            Ok((v, next)) => r matches Ok((b, s, rl, n)) && b@.map_values(|x: Bss| bss_value(x)) == v.bss
                && s@.map_values(|x: Symbol| symbol_value(x)) == v.symbols && rl@.map_values(|x: Relocation| fields_of(x))
                == v.relocations && n == next,
            Err(f) => r matches Err(e) && object_fault_reported(f, e),
        },
{
    let ghost gl = line_views(lines@);
    if lines.len() < 1 {
        return Err(invalid("missing object header"));
    }
    assert(gl[0] == lines@[0]@);
    if !chars_equal_str(lines[0].as_slice(), "VIVO 1") {
        return Err(invalid_quoted("invalid object header `", lines[0].as_slice()));
    }
    if lines.len() < 2 {
        return Err(invalid("missing BSS header"));
    }
    assert(gl[1] == lines@[1]@);
    let bss_count = count_header_of(lines[1].as_slice(), "BSS")?;
    let bss = read_bss_rows(lines, 2, bss_count)?;
    if bss_count >= lines.len() - 2 {
        return Err(invalid("missing SYMBOLS header"));
    }
    let at_s = 2 + bss_count;
    assert(gl[at_s as int] == lines@[at_s as int]@);
    let symbol_count = count_header_of(lines[at_s].as_slice(), "SYMBOLS")?;
    let symbols = read_symbol_rows(lines, at_s + 1, symbol_count)?;
    if symbol_count >= lines.len() - (at_s + 1) {
        return Err(invalid("missing RELOCATIONS header"));
    }
    let at_r = at_s + 1 + symbol_count;
    assert(gl[at_r as int] == lines@[at_r as int]@);
    let relocation_count = count_header_of(lines[at_r].as_slice(), "RELOCATIONS")?;
    let relocations = read_relocation_rows(lines, at_r + 1, relocation_count)?;
    let next = if relocation_count <= lines.len() - (at_r + 1) {
        at_r + 1 + relocation_count
    } else {
        lines.len()
    };
    proof {
        if relocation_count > lines.len() - (at_r + 1) {
            assert(relocation_rows(gl, at_r + 1, relocation_count as nat) is Err) by {
                lemma_relocation_rows_need_lines(gl, at_r + 1, relocation_count as nat);
            }
        }
    }
    Ok((bss, symbols, relocations, next))
}

/// Rows beyond the last line cannot be read.
proof fn lemma_relocation_rows_need_lines(lines: Seq<Seq<char>>, at: int, count: nat)
    requires
        0 <= at <= lines.len(),
        relocation_rows(lines, at, count) is Ok,
    ensures
        at + count <= lines.len(),
    decreases count,
{
    if count > 0 {
        assert(relocation_rows(lines, at, (count - 1) as nat) is Ok);
        lemma_relocation_rows_need_lines(lines, at, (count - 1) as nat);
        if at + count - 1 >= lines.len() {
            assert(relocation_rows(lines, at, count) is Err);
        }
    }
}

proof fn lemma_marker_in_range(data: Seq<u8>)
    ensures
        bytes_marker(data) matches Some(m) ==> 0 <= m <= data.len(),
{
    lemma_search_in_range(data, 0);
}

proof fn lemma_search_in_range(data: Seq<u8>, i: int)
    ensures
        search_marker(data, i) matches Some(m) ==> i <= m && m + 7 <= data.len() && marker_at(data, m),
    decreases data.len() - i,
{
    if 0 <= i && i + 7 <= data.len() && !marker_at(data, i) {
        lemma_search_in_range(data, i + 1);
    }
}

proof fn lemma_next_line_start_in_range(data: Seq<u8>, i: int)
    ensures
        next_line_start(data, i) matches Some(s) ==> i < s <= data.len(),
    decreases data.len() - i,
{
    if 0 <= i < data.len() && data[i] != 0x0Au8 {
        lemma_next_line_start_in_range(data, i + 1);
    }
}

impl ObjectFile {
    pub fn new() -> (o: Self)
        ensures
            object_value(o) == (ObjectValue { bss: Seq::empty(), symbols: Seq::empty(), relocations: Seq::empty(), bytes: Seq::empty() }),
    {
        let o = Self { bss: Vec::new(), symbols: Vec::new(), relocations: Vec::new(), bytes: Vec::new() };
        assert(object_value(o).bss =~= Seq::empty());
        assert(object_value(o).symbols =~= Seq::empty());
        assert(object_value(o).relocations =~= Seq::empty());
        o
    }

    /// Reads an object from its bytes.
    ///
    /// The text before the `BYTES` line must be UTF-8; its non-blank lines
    /// hold the `VIVO 1` header and the three tables, each a count line and
    /// that many rows. The `BYTES` line gives the number of bytes that follow it.
    pub fn read(data: &[u8]) -> (r: Result<ObjectFile, VoError>)
        ensures
            match parse_object(data@) {
                Ok(v) => r matches Ok(o) && object_value(o) == v,
                Err(f) => r matches Err(e) && object_fault_reported(f, e),
            },
    {
        let marker = match find_bytes_marker(data) {
            Some(m) => m,
            None => return Err(invalid("missing BYTES marker")),
        };
        proof {
            lemma_marker_in_range(data@);
        }
        let metadata = match decode_chars(vstd::slice::slice_subrange(data, 0, marker)) {
            Ok(c) => c,
            Err(reason) => return Err(invalid_utf8("metadata is not UTF-8: ", &reason)),
        };
        let byte_start = match find_next_line_start(data, marker) {
            Some(s) => s,
            None => return Err(invalid("missing bytecode after BYTES marker")),
        };
        proof {
            lemma_next_line_start_in_range(data@, marker as int);
        }
        let lines = content_lines_of(metadata.as_slice());
        assert(line_views(lines@) =~= content_lines(metadata@));
        let (bss, symbols, relocations, next) = read_tables(&lines)?;
        let header = match decode_chars(vstd::slice::slice_subrange(data, marker, byte_start - 1)) {
            Ok(c) => c,
            Err(reason) => return Err(invalid_utf8("BYTES header is not UTF-8: ", &reason)),
        };
        let trimmed = trim_chars(header.as_slice());
        let byte_count = byte_count_of(trimmed.as_slice())?;
        let payload = vstd::slice::slice_to_vec(vstd::slice::slice_subrange(data, byte_start, data.len()));
        if payload.len() != byte_count {
            let mut text = chars_of("byte count mismatch: expected ");
            push_decimal(&mut text, byte_count as u128);
            push_str(&mut text, ", found ");
            push_decimal(&mut text, payload.len() as u128);
            assert(text@ =~= "byte count mismatch: expected "@ + dec_digits(byte_count as nat) + ", found "@
                + dec_digits(payload@.len()));
            return Err(VoError::InvalidObject(string_from_chars(text.as_slice())));
        }
        if next < lines.len() {
            return Err(invalid("unexpected metadata after relocation table"));
        }
        Ok(ObjectFile { bss, symbols, relocations, bytes: payload })
    }

    /// Writes the object: the header text in UTF-8, then the section bytes.
    ///
    /// The section is at most `u32::MAX` bytes: every symbol and relocation
    /// offset in the format is 32 bits wide, so a longer section could not be
    /// addressed, and its length always fits the eight hex digits of the
    /// `BYTES` line.
    #[verifier::rlimit(30)]
    pub fn write(&self, out: &mut Vec<u8>) -> (r: Result<(), VoError>)
        requires
            self.bytes@.len() <= u32::MAX,
        ensures
            r is Ok,
            final(out)@ == old(out)@ + encoded(object_value(*self)),
    {
        let ghost v = object_value(*self);
        let mut text: Vec<char> = Vec::new();
        let ghost mut lines: Seq<Seq<char>> = Seq::empty();
        let first = chars_of("VIVO 1");
        push_line(&mut text, Ghost(lines), first.as_slice());
        proof { lines = lines.push("VIVO 1"@); }
        push_line(&mut text, Ghost(lines), Vec::new().as_slice());
        proof { lines = lines.push(Seq::empty()); }
        let mut count_line = chars_of("BSS ");
        push_decimal(&mut count_line, self.bss.len() as u128);
        push_line(&mut text, Ghost(lines), count_line.as_slice());
        proof { lines = lines.push(count_line@); }
        let ghost before_bss = lines;
        let mut k: usize = 0;
        while k < self.bss.len()
            invariant
                k <= self.bss@.len(),
                v == object_value(*self),
                text@ == lines_text(lines),
                lines == before_bss + v.bss.take(k as int).map_values(|b: (u32, u32, Seq<char>)| bss_text(b.0, b.1, b.2)),
            decreases self.bss@.len() - k,
        {
            let row = self.bss[k].to_chars();
            push_line(&mut text, Ghost(lines), row.as_slice());
            proof {
                lines = lines.push(row@);
                assert(v.bss.take(k + 1).map_values(|b: (u32, u32, Seq<char>)| bss_text(b.0, b.1, b.2))
                    =~= v.bss.take(k as int).map_values(|b: (u32, u32, Seq<char>)| bss_text(b.0, b.1, b.2)).push(row@));
            }
            k += 1;
        }
        assert(v.bss.take(self.bss@.len() as int) =~= v.bss);
        push_line(&mut text, Ghost(lines), Vec::new().as_slice());
        proof { lines = lines.push(Seq::empty()); }
        let mut count_line = chars_of("SYMBOLS ");
        push_decimal(&mut count_line, self.symbols.len() as u128);
        push_line(&mut text, Ghost(lines), count_line.as_slice());
        proof { lines = lines.push(count_line@); }
        let ghost before_symbols = lines;
        let mut k: usize = 0;
        while k < self.symbols.len()
            invariant
                k <= self.symbols@.len(),
                v == object_value(*self),
                text@ == lines_text(lines),
                lines == before_symbols + v.symbols.take(k as int).map_values(|s: (u32, Seq<char>)| symbol_text(s.0, s.1)),
            decreases self.symbols@.len() - k,
        {
            let row = self.symbols[k].to_chars();
            push_line(&mut text, Ghost(lines), row.as_slice());
            proof {
                lines = lines.push(row@);
                assert(v.symbols.take(k + 1).map_values(|s: (u32, Seq<char>)| symbol_text(s.0, s.1))
                    =~= v.symbols.take(k as int).map_values(|s: (u32, Seq<char>)| symbol_text(s.0, s.1)).push(row@));
            }
            k += 1;
        }
        assert(v.symbols.take(self.symbols@.len() as int) =~= v.symbols);
        push_line(&mut text, Ghost(lines), Vec::new().as_slice());
        proof { lines = lines.push(Seq::empty()); }
        let mut count_line = chars_of("RELOCATIONS ");
        push_decimal(&mut count_line, self.relocations.len() as u128);
        push_line(&mut text, Ghost(lines), count_line.as_slice());
        proof { lines = lines.push(count_line@); }
        let ghost before_relocations = lines;
        let mut k: usize = 0;
        while k < self.relocations.len()
            invariant
                k <= self.relocations@.len(),
                v == object_value(*self),
                text@ == lines_text(lines),
                lines == before_relocations + v.relocations.take(k as int).map_values(|r: RelocationFields| relocation_text(r)),
            decreases self.relocations@.len() - k,
        {
            let row = self.relocations[k].to_chars();
            push_line(&mut text, Ghost(lines), row.as_slice());
            proof {
                lines = lines.push(row@);
                assert(v.relocations.take(k + 1).map_values(|r: RelocationFields| relocation_text(r))
                    =~= v.relocations.take(k as int).map_values(|r: RelocationFields| relocation_text(r)).push(row@));
            }
            k += 1;
        }
        assert(v.relocations.take(self.relocations@.len() as int) =~= v.relocations);
        push_line(&mut text, Ghost(lines), Vec::new().as_slice());
        proof { lines = lines.push(Seq::empty()); }
        let mut count_line = chars_of("BYTES ");
        push_hex8(&mut count_line, self.bytes.len() as u32);
        push_line(&mut text, Ghost(lines), count_line.as_slice());
        proof {
            lines = lines.push(count_line@);
            assert(lines =~= header_lines(v));
        }
        let header = string_from_chars(text.as_slice());
        let header_bytes = header.as_str().as_bytes();
        let mut i: usize = 0;
        let ghost start = out@;
        while i < header_bytes.len()
            invariant
                i <= header_bytes@.len(),
                out@ == start + header_bytes@.take(i as int),
            decreases header_bytes@.len() - i,
        {
            out.push(header_bytes[i]);
            assert(out@ =~= start + header_bytes@.take(i + 1));
            i += 1;
        }
        assert(header_bytes@.take(header_bytes@.len() as int) =~= header_bytes@);
        let mut j: usize = 0;
        let ghost middle = out@;
        while j < self.bytes.len()
            invariant
                j <= self.bytes@.len(),
                out@ == middle + self.bytes@.take(j as int),
            decreases self.bytes@.len() - j,
        {
            out.push(self.bytes[j]);
            assert(out@ =~= middle + self.bytes@.take(j + 1));
            j += 1;
        }
        assert(self.bytes@.take(self.bytes@.len() as int) =~= self.bytes@);
        assert(out@ =~= start + encoded(v));
        Ok(())
    }

    /// Whether a symbol or a BSS entry has the name `label`.
    pub fn contains_label(&self, label: &str) -> (r: bool)
        ensures
            r == ((exists|i: int| 0 <= i < self.symbols@.len() && #[trigger] self.symbols@[i].name@ == label@)
                || (exists|i: int| 0 <= i < self.bss@.len() && #[trigger] self.bss@[i].name@ == label@)),
    {
        let wanted = chars_of(label);
        let mut i: usize = 0;
        while i < self.symbols.len()
            invariant
                wanted@ == label@,
                i <= self.symbols@.len(),
                forall|k: int| 0 <= k < i ==> #[trigger] self.symbols@[k].name@ != label@,
            decreases self.symbols@.len() - i,
        {
            let name = chars_of(self.symbols[i].name.as_str());
            if chars_equal(name.as_slice(), wanted.as_slice()) {
                return true;
            }
            i += 1;
        }
        let mut j: usize = 0;
        while j < self.bss.len()
            invariant
                wanted@ == label@,
                j <= self.bss@.len(),
                forall|k: int| 0 <= k < self.symbols@.len() ==> #[trigger] self.symbols@[k].name@ != label@,
                forall|k: int| 0 <= k < j ==> #[trigger] self.bss@[k].name@ != label@,
            decreases self.bss@.len() - j,
        {
            let name = chars_of(self.bss[j].name.as_str());
            if chars_equal(name.as_slice(), wanted.as_slice()) {
                return true;
            }
            j += 1;
        }
        false
    }

    /// The first symbol named `symbol_name`.
    pub fn get_symbol_by_name(&self, symbol_name: &str) -> (r: Option<Symbol>)
        ensures
            match r {
                Some(s) => exists|i: int|
                    0 <= i < self.symbols@.len() && #[trigger] self.symbols@[i] == s && s.name@ == symbol_name@ && (forall|k: int|
                        0 <= k < i ==> #[trigger] self.symbols@[k].name@ != symbol_name@),
                None => forall|k: int| 0 <= k < self.symbols@.len() ==> #[trigger] self.symbols@[k].name@ != symbol_name@,
            },
    {
        let wanted = chars_of(symbol_name);
        let mut i: usize = 0;
        while i < self.symbols.len()
            invariant
                wanted@ == symbol_name@,
                i <= self.symbols@.len(),
                forall|k: int| 0 <= k < i ==> #[trigger] self.symbols@[k].name@ != symbol_name@,
            decreases self.symbols@.len() - i,
        {
            let name = chars_of(self.symbols[i].name.as_str());
            if chars_equal(name.as_slice(), wanted.as_slice()) {
                let found = Symbol { offset: self.symbols[i].offset, name: self.symbols[i].name.clone() };
                assert(found == self.symbols@[i as int]);
                return Some(found);
            }
            i += 1;
        }
        None
    }
}

/// Appends a line and its line feed.
fn push_line(text: &mut Vec<char>, Ghost(lines): Ghost<Seq<Seq<char>>>, line: &[char])
    requires
        old(text)@ == lines_text(lines),
    ensures
        final(text)@ == lines_text(lines.push(line@)),
{
    text.extend_from_slice(line);
    text.push('\n');
    assert(lines.push(line@).drop_last() =~= lines);
    assert(text@ =~= lines_text(lines.push(line@)));
}

} // verus!
