//! The assembler's lexical rules: comments, numbers, registers, names and
//! string literals.
use vstd::prelude::*;
use vstd::utf8::{encode_scalar, encode_utf8};

use crate::isa::Creg;
use crate::text::{
    chars_equal_str, chars_of, dec_signed, is_ws, parse_signed, parse_signed_chars, parse_unsigned, parse_unsigned_chars,
    push_signed_decimal, push_str, string_from_chars, trim, trim_chars, IntParseError,
};

use super::error::ParseError;

verus! {

/// Where a comment starts: the first `;` outside a string literal. Inside a
/// literal a backslash escapes the next character.
pub open spec fn comment_start(s: Seq<char>, i: int, in_string: bool, escaped: bool) -> int
    decreases s.len() - i,
{
    if i < 0 || i >= s.len() {
        s.len() as int
    } else if escaped {
        comment_start(s, i + 1, in_string, false)
    } else if s[i] == '\\' && in_string {
        comment_start(s, i + 1, in_string, true)
    } else if s[i] == '"' {
        comment_start(s, i + 1, !in_string, false)
    } else if s[i] == ';' && !in_string {
        i
    } else {
        comment_start(s, i + 1, in_string, false)
    }
}

/// A source line without its comment and surrounding whitespace, if anything is left.
pub open spec fn stripped_line(s: Seq<char>) -> Option<Seq<char>> {
    let t = trim(s.take(comment_start(s, 0, false, false)));
    if t.len() == 0 {
        None
    } else {
        Some(t)
    }
}

proof fn lemma_comment_start_range(s: Seq<char>, i: int, in_string: bool, escaped: bool)
    requires
        0 <= i,
    ensures
        i <= comment_start(s, i, in_string, escaped) <= s.len() || (i > s.len() && comment_start(s, i, in_string, escaped) == s.len()),
    decreases s.len() - i,
{
    if i < s.len() {
        if escaped {
            lemma_comment_start_range(s, i + 1, in_string, false);
        } else if s[i] == '\\' && in_string {
            lemma_comment_start_range(s, i + 1, in_string, true);
        } else if s[i] == '"' {
            lemma_comment_start_range(s, i + 1, !in_string, false);
        } else if s[i] == ';' && !in_string {
        } else {
            lemma_comment_start_range(s, i + 1, in_string, false);
        }
    }
}

/// A line without its comment and surrounding whitespace; `None` when nothing is left.
pub fn strip_spaces_comments(line: &[char]) -> (r: Option<Vec<char>>)
    ensures
        match stripped_line(line@) {
            Some(t) => r matches Some(v) && v@ == t,
            None => r is None,
        },
{
    let mut in_string = false;
    let mut escaped = false;
    let mut end = line.len();
    let mut found = false;
    let mut i: usize = 0;
    while i < line.len() && !found
        invariant
            i <= line@.len(),
            !found ==> end == line@.len() && comment_start(line@, 0, false, false) == comment_start(line@, i as int, in_string, escaped),
            found ==> end == comment_start(line@, 0, false, false),
        decreases line@.len() - i, (if found { 0int } else { 1int }),
    {
        let ch = line[i];
        if escaped {
            escaped = false;
            i += 1;
        } else if ch == '\\' && in_string {
            escaped = true;
            i += 1;
        } else if ch == '"' {
            in_string = !in_string;
            i += 1;
        } else if ch == ';' && !in_string {
            end = i;
            found = true;
        } else {
            i += 1;
        }
    }
    proof {
        lemma_comment_start_range(line@, 0, false, false);
    }
    let mut kept: Vec<char> = Vec::new();
    let mut k: usize = 0;
    while k < end
        invariant
            end <= line@.len(),
            end == comment_start(line@, 0, false, false),
            k <= end,
            kept@ == line@.take(k as int),
        decreases end - k,
    {
        kept.push(line[k]);
        assert(kept@ =~= line@.take(k + 1));
        k += 1;
    }
    let t = trim_chars(kept.as_slice());
    if t.len() == 0 {
        None
    } else {
        Some(t)
    }
}

/// Whether a character is an ASCII letter.
pub open spec fn is_alpha(c: char) -> bool {
    ('a' <= c && c <= 'z') || ('A' <= c && c <= 'Z')
}

/// Whether a character is an ASCII letter or digit.
pub open spec fn is_alnum(c: char) -> bool {
    is_alpha(c) || ('0' <= c && c <= '9')
}

/// A symbol name: a letter or `_`, then letters, digits and `_`.
pub open spec fn valid_symbol_name(s: Seq<char>) -> bool {
    &&& s.len() > 0
    &&& (is_alpha(s[0]) || s[0] == '_')
    &&& forall|i: int| 0 <= i < s.len() ==> is_alnum(#[trigger] s[i]) || s[i] == '_'
}

/// Whether `name` is a symbol name.
pub fn is_valid_symbol_name(name: &[char]) -> (r: bool)
    ensures
        r == valid_symbol_name(name@),
{
    if name.len() == 0 {
        return false;
    }
    let c0 = name[0];
    if !(('a' <= c0 && c0 <= 'z') || ('A' <= c0 && c0 <= 'Z') || c0 == '_') {
        return false;
    }
    let mut i: usize = 0;
    while i < name.len()
        invariant
            i <= name@.len(),
            forall|k: int| 0 <= k < i ==> is_alnum(#[trigger] name@[k]) || name@[k] == '_',
        decreases name@.len() - i,
    {
        let c = name[i];
        if !(('a' <= c && c <= 'z') || ('A' <= c && c <= 'Z') || ('0' <= c && c <= '9') || c == '_') {
            return false;
        }
        i += 1;
    }
    true
}

/// Checks that `name` is a symbol name.
pub fn validate_symbol_name(name: &[char]) -> (r: Result<(), ParseError>)
    ensures
        r is Ok <==> valid_symbol_name(name@),
        r matches Err(e) ==> (e matches ParseError::InvalidName(m) && m@ == "Invalid name: '"@ + name@ + "'"@),
{
    if is_valid_symbol_name(name) {
        return Ok(());
    }
    let mut m = chars_of("Invalid name: '");
    m.extend_from_slice(name);
    crate::text::push_str(&mut m, "'");
    Err(ParseError::InvalidName(string_from_chars(m.as_slice())))
}

/// The digits of a number written with a `0x` or `0X` prefix, if it has one.
pub open spec fn hex_body(t: Seq<char>) -> Option<Seq<char>> {
    if t.len() >= 2 && t[0] == '0' && (t[1] == 'x' || t[1] == 'X') {
        Some(t.subrange(2, t.len() as int))
    } else {
        None
    }
}

/// A number outside `min..=max` is refused, unless the two bounds are equal.
pub open spec fn range_ok(n: int, min: int, max: int) -> bool {
    min == max || (min <= n && n <= max)
}

/// The value of a signed immediate: `0x` hex or decimal, trimmed, in `min..=max`.
pub open spec fn immi_value(text: Seq<char>, min: int, max: int) -> Option<i32> {
    let t = trim(text);
    let parsed = match hex_body(t) {
        Some(h) => parse_signed(h, 16, i32::MIN as int, i32::MAX as int),
        None => parse_signed(t, 10, i32::MIN as int, i32::MAX as int),
    };
    match parsed {
        Ok(v) => if range_ok(v, min, max) {
            Some(v as i32)
        } else {
            None
        },
        Err(_) => None,
    }
}

/// The value of an unsigned immediate: `0x` hex or decimal, trimmed, in `min..=max`.
pub open spec fn immu_value(text: Seq<char>, min: int, max: int) -> Option<u32> {
    let t = trim(text);
    let parsed = match hex_body(t) {
        Some(h) => parse_unsigned(h, 16, u32::MAX as int),
        None => parse_unsigned(t, 10, u32::MAX as int),
    };
    match parsed {
        Ok(v) => if range_ok(v, min, max) {
            Some(v as u32)
        } else {
            None
        },
        Err(_) => None,
    }
}

/// The message of a signed immediate that cannot be read: the trimmed text
/// when it is no number, else the out-of-range value.
pub open spec fn immi_message(text: Seq<char>) -> Seq<char> {
    let t = trim(text);
    let parsed = match hex_body(t) {
        Some(h) => parse_signed(h, 16, i32::MIN as int, i32::MAX as int),
        None => parse_signed(t, 10, i32::MIN as int, i32::MAX as int),
    };
    match parsed {
        Ok(v) => "Number outside of data range: "@ + dec_signed(v),
        Err(_) => t,
    }
}

/// The message of an unsigned immediate that cannot be read: the trimmed
/// text when it is no number, else the out-of-range value.
pub open spec fn immu_message(text: Seq<char>) -> Seq<char> {
    let t = trim(text);
    let parsed = match hex_body(t) {
        Some(h) => parse_unsigned(h, 16, u32::MAX as int),
        None => parse_unsigned(t, 10, u32::MAX as int),
    };
    match parsed {
        Ok(v) => "Number outside of data range: "@ + dec_signed(v),
        Err(_) => t,
    }
}

fn hex_body_of(t: &[char]) -> (r: Option<Vec<char>>)
    ensures
        match hex_body(t@) {
            Some(h) => r matches Some(v) && v@ == h,
            None => r is None,
        },
{
    if t.len() >= 2 && t[0] == '0' && (t[1] == 'x' || t[1] == 'X') {
        let mut v: Vec<char> = Vec::new();
        let mut i: usize = 2;
        while i < t.len()
            invariant
                2 <= i <= t@.len(),
                v@ == t@.subrange(2, i as int),
            decreases t@.len() - i,
        {
            v.push(t[i]);
            assert(v@ =~= t@.subrange(2, i + 1));
            i += 1;
        }
        Some(v)
    } else {
        None
    }
}

/// Checks that `number` lies in `min..=max`; equal bounds accept every number.
pub fn assert_range(number: i64, min: i64, max: i64) -> (r: Result<(), ParseError>)
    requires
        number > i64::MIN,
    ensures
        r is Ok <==> range_ok(number as int, min as int, max as int),
        r matches Err(e) ==> (e matches ParseError::InvalidNumber(m) && m@ == "Number outside of data range: "@ + dec_signed(
            number as int,
        )),
{
    if min != max && (number < min || number > max) {
        let mut m = chars_of("Number outside of data range: ");
        push_signed_decimal(&mut m, number);
        return Err(ParseError::InvalidNumber(string_from_chars(m.as_slice())));
    }
    Ok(())
}

/// Reads a signed immediate: `0x` or `0X` then hex digits, or decimal; the
/// value must lie in `min..=max` unless the two are equal.
pub fn immi(text: &[char], min: i64, max: i64) -> (r: Result<i32, ParseError>)
    ensures
        match immi_value(text@, min as int, max as int) {
            Some(v) => r == Ok::<i32, ParseError>(v),
            None => r matches Err(e) && e matches ParseError::InvalidNumber(m) && m@ == immi_message(text@),
        },
{
    let t = trim_chars(text);
    let parsed = match hex_body_of(t.as_slice()) {
        Some(h) => parse_signed_chars(h.as_slice(), 16, i32::MIN as i64, i32::MAX as i64),
        None => parse_signed_chars(t.as_slice(), 10, i32::MIN as i64, i32::MAX as i64),
    };
    let num = match parsed {
        Ok(v) => v,
        Err(_) => return Err(ParseError::InvalidNumber(string_from_chars(t.as_slice()))),
    };
    match assert_range(num, min, max) {
        Ok(()) => Ok(num as i32),
        Err(e) => Err(e),
    }
}

/// Reads an unsigned immediate: `0x` or `0X` then hex digits, or decimal;
/// the value must lie in `min..=max` unless the two are equal.
pub fn immu(text: &[char], min: i64, max: i64) -> (r: Result<u32, ParseError>)
    ensures
        match immu_value(text@, min as int, max as int) {
            Some(v) => r == Ok::<u32, ParseError>(v),
            None => r matches Err(e) && e matches ParseError::InvalidNumber(m) && m@ == immu_message(text@),
        },
{
    let t = trim_chars(text);
    let parsed = match hex_body_of(t.as_slice()) {
        Some(h) => parse_unsigned_chars(h.as_slice(), 16, 0xFFFF_FFFF),
        None => parse_unsigned_chars(t.as_slice(), 10, 0xFFFF_FFFF),
    };
    let num = match parsed {
        Ok(v) => v,
        Err(_) => return Err(ParseError::InvalidNumber(string_from_chars(t.as_slice()))),
    };
    match assert_range(num as i64, min, max) {
        Ok(()) => Ok(num as u32),
        Err(e) => Err(e),
    }
}

/// A general-purpose register number, 0 to 15.
pub open spec fn reg_value(text: Seq<char>) -> Option<u8> {
    match immu_value(text, 0, 15) {
        Some(v) => Some(v as u8),
        None => None,
    }
}

/// Reads a general-purpose register number.
pub fn reg(value: &[char]) -> (r: Result<u8, ParseError>)
    ensures
        match reg_value(value@) {
            Some(v) => r == Ok::<u8, ParseError>(v),
            None => r matches Err(e) && e matches ParseError::InvalidNumber(m) && m@ == immu_message(value@),
        },
{
    let number = match immu(value, 0, 0xF) {
        Ok(n) => n,
        Err(e) => return Err(e),
    };
    if number > 0xF {
        let mut m = chars_of("Invalid register: ");
        m.extend_from_slice(value);
        return Err(ParseError::InvalidNumber(string_from_chars(m.as_slice())));
    }
    Ok(number as u8)
}

/// The control register an operand names.
pub open spec fn creg_value(text: Seq<char>) -> Option<Creg> {
    if text == "%pc"@ {
        Some(Creg::PC)
    } else if text == "%sr"@ {
        Some(Creg::SR)
    } else if text == "%epc"@ {
        Some(Creg::EPC)
    } else if text == "%esr"@ {
        Some(Creg::ESR)
    } else if text == "%ecause"@ {
        Some(Creg::ECause)
    } else if text == "%edata"@ {
        Some(Creg::EData)
    } else if text == "%evbase"@ {
        Some(Creg::EvBase)
    } else {
        None
    }
}

/// Reads a control register name.
pub fn creg(cr: &[char]) -> (r: Result<Creg, ParseError>)
    ensures
        match creg_value(cr@) {
            Some(c) => r == Ok::<Creg, ParseError>(c),
            None => r matches Err(e) && (e matches ParseError::InvalidName(m) && m@ == "Invalid creg: "@ + cr@),
        },
{
    if chars_equal_str(cr, "%pc") {
        Ok(Creg::PC)
    } else if chars_equal_str(cr, "%sr") {
        Ok(Creg::SR)
    } else if chars_equal_str(cr, "%epc") {
        Ok(Creg::EPC)
    } else if chars_equal_str(cr, "%esr") {
        Ok(Creg::ESR)
    } else if chars_equal_str(cr, "%ecause") {
        Ok(Creg::ECause)
    } else if chars_equal_str(cr, "%edata") {
        Ok(Creg::EData)
    } else if chars_equal_str(cr, "%evbase") {
        Ok(Creg::EvBase)
    } else {
        let mut m = chars_of("Invalid creg: ");
        m.extend_from_slice(cr);
        Err(ParseError::InvalidName(string_from_chars(m.as_slice())))
    }
}

/// Appends the UTF-8 encoding of a character.
pub fn push_utf8(out: &mut Vec<u8>, c: char)
    ensures
        final(out)@ == old(out)@ + encode_scalar(c as u32),
{
    let v = c as u32;
    if v <= 0x7F {
        out.push((v & 0x7F) as u8);
    } else if v <= 0x7FF {
        out.push(0xC0 | ((v >> 6) & 0x1F) as u8);
        out.push(0x80 | (v & 0x3F) as u8);
    } else if v <= 0xFFFF {
        out.push(0xE0 | ((v >> 12) & 0x0F) as u8);
        out.push(0x80 | ((v >> 6) & 0x3F) as u8);
        out.push(0x80 | (v & 0x3F) as u8);
    } else {
        out.push(0xF0 | ((v >> 18) & 0x7) as u8);
        out.push(0x80 | ((v >> 12) & 0x3F) as u8);
        out.push(0x80 | ((v >> 6) & 0x3F) as u8);
        out.push(0x80 | (v & 0x3F) as u8);
    }
    proof {
        vstd::utf8::char_is_scalar(c);
    }
    assert(out@ =~= old(out)@ + encode_scalar(c as u32));
}

/// Why a string literal cannot be read, with what the error message shows.
pub ghost enum LiteralFault {
    Unquoted,
    Escape(Seq<char>),
}

/// The bytes a string literal's body stands for, from position `i` on:
/// characters as UTF-8, and the escapes `\n`, `\r`, `\t`, `\0`, `\"`, `\\`
/// and `\x` with two hex digits.
pub open spec fn literal_bytes(s: Seq<char>, i: int) -> Result<Seq<u8>, LiteralFault>
    decreases s.len() - i,
{
    if i < 0 || i >= s.len() {
        Ok(Seq::empty())
    } else if s[i] != '\\' {
        match literal_bytes(s, i + 1) {
            Ok(rest) => Ok(encode_scalar(s[i] as u32) + rest),
            Err(f) => Err(f),
        }
    } else if i + 1 >= s.len() {
        Err(LiteralFault::Escape("\\"@))
    } else {
        let e = s[i + 1];
        if e == 'x' {
            if i + 2 >= s.len() {
                Err(LiteralFault::Escape("\\x"@))
            } else if i + 3 >= s.len() {
                Err(LiteralFault::Escape("\\x"@ + seq![s[i + 2]]))
            } else {
                match parse_unsigned(seq![s[i + 2], s[i + 3]], 16, 255) {
                    Err(_) => Err(LiteralFault::Escape("\\x"@ + seq![s[i + 2], s[i + 3]])),
                    Ok(b) => match literal_bytes(s, i + 4) {
                        Ok(rest) => Ok(seq![b as u8] + rest),
                        Err(f) => Err(f),
                    },
                }
            }
        } else {
            let b: Option<u8> = if e == 'n' {
                Some(0x0Au8)
            } else if e == 'r' {
                Some(0x0Du8)
            } else if e == 't' {
                Some(0x09u8)
            } else if e == '0' {
                Some(0u8)
            } else if e == '"' {
                Some(0x22u8)
            } else if e == '\\' {
                Some(0x5Cu8)
            } else {
                None
            };
            match b {
                None => Err(LiteralFault::Escape("\\"@ + seq![e])),
                Some(b) => match literal_bytes(s, i + 2) {
                    Ok(rest) => Ok(seq![b] + rest),
                    Err(f) => Err(f),
                },
            }
        }
    }
}

/// The bytes of a double-quoted string literal.
pub open spec fn string_literal(value: Seq<char>) -> Result<Seq<u8>, LiteralFault> {
    if value.len() < 2 || value[0] != '"' || value.last() != '"' {
        Err(LiteralFault::Unquoted)
    } else {
        literal_bytes(value.subrange(1, value.len() - 1), 0)
    }
}

/// The body bytes from position `i` on, appended to `out`, or the first fault.
fn literal_body(s: &[char], out: &mut Vec<u8>) -> (r: Result<(), ParseError>)
    ensures
        match literal_bytes(s@, 0) {
            Ok(b) => r is Ok && final(out)@ == old(out)@ + b,
            Err(LiteralFault::Escape(m)) => r matches Err(e) && (e matches ParseError::InvalidStringLiteral(t) && t@ == m),
            Err(LiteralFault::Unquoted) => false,
        },
{
    let ghost start = out@;
    let mut i: usize = 0;
    while i < s.len()
        invariant
            i <= s@.len(),
            match literal_bytes(s@, 0) {
                Ok(all) => match literal_bytes(s@, i as int) {
                    Ok(rest) => all == out@.subrange(start.len() as int, out@.len() as int) + rest && out@.subrange(0, start.len() as int) == start,
                    Err(_) => false,
                },
                Err(f) => literal_bytes(s@, i as int) == Err::<Seq<u8>, LiteralFault>(f),
            },
            start.len() <= out@.len(),
            out@.subrange(0, start.len() as int) == start,
        decreases s@.len() - i,
    {
        let ch = s[i];
        if ch != '\\' {
            let ghost before = out@;
            push_utf8(out, ch);
            proof {
                assert(out@.subrange(0, start.len() as int) =~= start);
                assert(out@.subrange(start.len() as int, out@.len() as int) =~= before.subrange(start.len() as int, before.len() as int)
                    + encode_scalar(ch as u32));
            }
            i += 1;
            continue;
        }
        if i + 1 >= s.len() {
            let m = chars_of("\\");
            return Err(ParseError::InvalidStringLiteral(string_from_chars(m.as_slice())));
        }
        let escaped = s[i + 1];
        if escaped == 'x' {
            if i + 2 >= s.len() {
                let m = chars_of("\\x");
                return Err(ParseError::InvalidStringLiteral(string_from_chars(m.as_slice())));
            }
            let hi = s[i + 2];
            if i + 3 >= s.len() {
                let mut m = chars_of("\\x");
                m.push(hi);
                return Err(ParseError::InvalidStringLiteral(string_from_chars(m.as_slice())));
            }
            let lo = s[i + 3];
            let mut hex: Vec<char> = Vec::new();
            hex.push(hi);
            hex.push(lo);
            assert(hex@ =~= seq![hi, lo]);
            match parse_unsigned_chars(hex.as_slice(), 16, 255) {
                Ok(b) => {
                    let ghost before = out@;
                    out.push(b as u8);
                    proof {
                        assert(out@.subrange(0, start.len() as int) =~= start);
                        assert(out@.subrange(start.len() as int, out@.len() as int) =~= before.subrange(
                            start.len() as int,
                            before.len() as int,
                        ) + seq![b as u8]);
                    }
                    i += 4;
                },
                Err(_) => {
                    let mut m = chars_of("\\x");
                    m.push(hi);
                    m.push(lo);
                    return Err(ParseError::InvalidStringLiteral(string_from_chars(m.as_slice())));
                },
            }
            continue;
        }
        let byte: Option<u8> = if escaped == 'n' {
            Some(0x0A)
        } else if escaped == 'r' {
            Some(0x0D)
        } else if escaped == 't' {
            Some(0x09)
        } else if escaped == '0' {
            Some(0)
        } else if escaped == '"' {
            Some(0x22)
        } else if escaped == '\\' {
            Some(0x5C)
        } else {
            None
        };
        match byte {
            Some(b) => {
                let ghost before = out@;
                out.push(b);
                proof {
                    assert(out@.subrange(0, start.len() as int) =~= start);
                    assert(out@.subrange(start.len() as int, out@.len() as int) =~= before.subrange(
                        start.len() as int,
                        before.len() as int,
                    ) + seq![b]);
                }
                i += 2;
            },
            None => {
                let mut m = chars_of("\\");
                m.push(escaped);
                return Err(ParseError::InvalidStringLiteral(string_from_chars(m.as_slice())));
            },
        }
    }
    proof {
        if literal_bytes(s@, 0) is Ok {
            assert(out@ =~= out@.subrange(0, start.len() as int) + out@.subrange(start.len() as int, out@.len() as int));
        }
    }
    Ok(())
}

/// Reads a double-quoted string literal into its bytes.
pub fn parse_string_literal(value: &[char]) -> (r: Result<Vec<u8>, ParseError>)
    ensures
        match string_literal(value@) {
            Ok(b) => r matches Ok(v) && v@ == b,
            Err(LiteralFault::Unquoted) => r matches Err(e) && (e matches ParseError::InvalidStringLiteral(t) && t@ == value@),
            Err(LiteralFault::Escape(m)) => r matches Err(e) && (e matches ParseError::InvalidStringLiteral(t) && t@ == m),
        },
{
    if value.len() < 2 || value[0] != '"' || value[value.len() - 1] != '"' {
        return Err(ParseError::InvalidStringLiteral(string_from_chars(value)));
    }
    let inner = vstd::slice::slice_subrange(value, 1, value.len() - 1);
    let mut output: Vec<u8> = Vec::new();
    literal_body(inner, &mut output)?;
    assert(output@ =~= Seq::<u8>::empty() + output@);
    Ok(output)
}

} // verus!
