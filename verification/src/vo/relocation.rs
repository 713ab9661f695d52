use vstd::prelude::*;

use crate::text::{
    chars_equal_str, chars_of, dec_digits, dec_signed, hex8, int_error_text, parse_signed, parse_signed_chars,
    parse_unsigned, parse_unsigned_chars, push_decimal, push_hex8, push_int_error, push_signed_decimal, push_str,
    split_whitespace, string_from_chars, words, IntParseError,
};

use super::error::VoError;

verus! {

/// What a relocation's value is measured from: address zero, or the patched field.
#[derive(Debug, Clone, Copy, PartialEq, Eq, Structural)]
pub enum RelocationBase {
    Absolute,
    Relative,
}

/// Whether the patched field holds a signed or an unsigned value.
#[derive(Debug, Clone, Copy, PartialEq, Eq, Structural)]
pub enum RelocationSign {
    Unsigned,
    Signed,
}

pub open spec fn base_text(b: RelocationBase) -> Seq<char> {
    match b {
        RelocationBase::Absolute => "abs"@,
        RelocationBase::Relative => "rel"@,
    }
}

pub open spec fn sign_text(s: RelocationSign) -> Seq<char> {
    match s {
        RelocationSign::Unsigned => "u"@,
        RelocationSign::Signed => "s"@,
    }
}

/// The base a field names, if it names one.
pub open spec fn parse_base(s: Seq<char>) -> Option<RelocationBase> {
    if s == "abs"@ {
        Some(RelocationBase::Absolute)
    } else if s == "rel"@ {
        Some(RelocationBase::Relative)
    } else {
        None
    }
}

/// The sign a field names, if it names one.
pub open spec fn parse_sign(s: Seq<char>) -> Option<RelocationSign> {
    if s == "u"@ {
        Some(RelocationSign::Unsigned)
    } else if s == "s"@ {
        Some(RelocationSign::Signed)
    } else {
        None
    }
}

fn base_from_chars(field: &[char]) -> (r: Option<RelocationBase>)
    ensures
        r == parse_base(field@),
{
    if chars_equal_str(field, "abs") {
        Some(RelocationBase::Absolute)
    } else if chars_equal_str(field, "rel") {
        Some(RelocationBase::Relative)
    } else {
        None
    }
}

fn sign_from_chars(field: &[char]) -> (r: Option<RelocationSign>)
    ensures
        r == parse_sign(field@),
{
    if chars_equal_str(field, "u") {
        Some(RelocationSign::Unsigned)
    } else if chars_equal_str(field, "s") {
        Some(RelocationSign::Signed)
    } else {
        None
    }
}

impl RelocationBase {
    /// Reads `abs` or `rel`.
    pub fn try_from(value: &str) -> (r: Result<RelocationBase, VoError>)
        ensures
            match parse_base(value@) {
                Some(b) => r == Ok::<RelocationBase, VoError>(b),
                None => r matches Err(VoError::InvalidRelocation(m)) && m@ == value@,
            },
    {
        let chars = chars_of(value);
        match base_from_chars(chars.as_slice()) {
            Some(b) => Ok(b),
            None => Err(VoError::InvalidRelocation(string_from_chars(chars.as_slice()))),
        }
    }

    pub fn to_string(&self) -> (r: String)
        ensures
            r@ == base_text(*self),
    {
        let mut out: Vec<char> = Vec::new();
        match self {
            RelocationBase::Absolute => push_str(&mut out, "abs"),
            RelocationBase::Relative => push_str(&mut out, "rel"),
        }
        assert(out@ =~= base_text(*self));
        string_from_chars(out.as_slice())
    }
}

impl RelocationSign {
    /// Reads `u` or `s`.
    pub fn try_from(value: &str) -> (r: Result<RelocationSign, VoError>)
        ensures
            match parse_sign(value@) {
                Some(s) => r == Ok::<RelocationSign, VoError>(s),
                None => r matches Err(VoError::InvalidSign(m)) && m@ == value@,
            },
    {
        let chars = chars_of(value);
        match sign_from_chars(chars.as_slice()) {
            Some(s) => Ok(s),
            None => Err(VoError::InvalidSign(string_from_chars(chars.as_slice()))),
        }
    }

    pub fn to_string(&self) -> (r: String)
        ensures
            r@ == sign_text(*self),
    {
        let mut out: Vec<char> = Vec::new();
        match self {
            RelocationSign::Unsigned => push_str(&mut out, "u"),
            RelocationSign::Signed => push_str(&mut out, "s"),
        }
        assert(out@ =~= sign_text(*self));
        string_from_chars(out.as_slice())
    }
}

/// An instruction or data field to patch with a symbol's address once it is known.
///
/// The value is the symbol's address plus `addend`, less the patched field's
/// address for a relative relocation; it is shifted right by `value_shift`,
/// must fit `width` bits (as a signed number when the sign is signed), and is
/// placed `field_shift` bits up in the word at `patch_offset`.
#[derive(Debug, Clone, PartialEq, Eq)]
pub struct Relocation {
    pub patch_offset: u32,
    pub symbol: String,
    pub addend: i32,
    pub base: RelocationBase,
    pub sign: RelocationSign,
    pub value_shift: u8,
    pub width: u8,
    pub field_shift: u8,
}

/// The plain values of a relocation's fields.
pub type RelocationFields = (u32, Seq<char>, i32, RelocationBase, RelocationSign, u8, u8, u8);

pub open spec fn fields_of(r: Relocation) -> RelocationFields {
    (r.patch_offset, r.symbol@, r.addend, r.base, r.sign, r.value_shift, r.width, r.field_shift)
}

/// A relocation row: the eight fields separated by single spaces, the patch
/// offset in eight hex digits, the numbers in decimal.
pub open spec fn relocation_text(f: RelocationFields) -> Seq<char> {
    hex8(f.0) + " "@ + f.1 + " "@ + dec_signed(f.2 as int) + " "@ + base_text(f.3) + " "@ + sign_text(f.4) + " "@
        + dec_digits(f.5 as nat) + " "@ + dec_digits(f.6 as nat) + " "@ + dec_digits(f.7 as nat)
}

/// Why a relocation row cannot be read, and what the error message names.
pub ghost enum RelocationFault {
    FieldCount(nat),
    Hex(Seq<char>, Seq<char>, IntParseError),
    Decimal(Seq<char>, Seq<char>, IntParseError),
    Base(Seq<char>),
    Sign(Seq<char>),
}

pub open spec fn parse_u8_field(field: Seq<char>, name: Seq<char>) -> Result<u8, RelocationFault> {
    match parse_unsigned(field, 10, 255) {
        Ok(v) => Ok(v as u8),
        Err(e) => Err(RelocationFault::Decimal(name, field, e)),
    }
}

/// What a relocation row holds: eight whitespace-separated fields, read in order.
pub open spec fn parse_relocation(s: Seq<char>) -> Result<RelocationFields, RelocationFault> {
    let w = words(s);
    if w.len() != 8 {
        Err(RelocationFault::FieldCount(w.len()))
    } else {
        match parse_unsigned(w[0], 16, u32::MAX as int) {
            Err(e) => Err(RelocationFault::Hex("patch_offset"@, w[0], e)),
            Ok(offset) => match parse_signed(w[2], 10, i32::MIN as int, i32::MAX as int) {
                Err(e) => Err(RelocationFault::Decimal("addend"@, w[2], e)),
                Ok(addend) => match parse_base(w[3]) {
                    None => Err(RelocationFault::Base(w[3])),
                    Some(base) => match parse_sign(w[4]) {
                        None => Err(RelocationFault::Sign(w[4])),
                        Some(sign) => match parse_u8_field(w[5], "value_shift"@) {
                            Err(f) => Err(f),
                            Ok(value_shift) => match parse_u8_field(w[6], "width"@) {
                                Err(f) => Err(f),
                                Ok(width) => match parse_u8_field(w[7], "field_shift"@) {
                                    Err(f) => Err(f),
                                    Ok(field_shift) => Ok(
                                        (offset as u32, w[1], addend as i32, base, sign, value_shift, width, field_shift),
                                    ),
                                },
                            },
                        },
                    },
                },
            },
        }
    }
}

/// The message of the error for a fault in row `row`.
pub open spec fn fault_message(row: Seq<char>, f: RelocationFault) -> Seq<char> {
    match f {
        RelocationFault::FieldCount(n) => "expected 8 fields, found "@ + dec_digits(n) + ": "@ + row,
        RelocationFault::Hex(name, field, e) => "invalid hex `"@ + name + "` value `"@ + field
            + "` in relocation row `"@ + row + "`: "@ + int_error_text(e),
        RelocationFault::Decimal(name, field, e) => "invalid `"@ + name + "` value `"@ + field
            + "` in relocation row `"@ + row + "`: "@ + int_error_text(e),
        RelocationFault::Base(field) => field,
        RelocationFault::Sign(field) => field,
    }
}

/// The error a fault is reported as.
pub open spec fn fault_reported(row: Seq<char>, f: RelocationFault, e: VoError) -> bool {
    match f {
        RelocationFault::Sign(_) => e matches VoError::InvalidSign(m) && m@ == fault_message(row, f),
        _ => e matches VoError::InvalidRelocation(m) && m@ == fault_message(row, f),
    }
}

fn number_error(row: &[char], name: &str, field: &[char], e: IntParseError, hex: bool) -> (r: VoError)
    ensures
        r matches VoError::InvalidRelocation(m) && m@ == (if hex {
            fault_message(row@, RelocationFault::Hex(name@, field@, e))
        } else {
            fault_message(row@, RelocationFault::Decimal(name@, field@, e))
        }),
{
    let mut out: Vec<char> = Vec::new();
    if hex {
        push_str(&mut out, "invalid hex `");
    } else {
        push_str(&mut out, "invalid `");
    }
    push_str(&mut out, name);
    push_str(&mut out, "` value `");
    out.extend_from_slice(field);
    push_str(&mut out, "` in relocation row `");
    out.extend_from_slice(row);
    push_str(&mut out, "`: ");
    push_int_error(&mut out, e);
    proof {
        if hex {
            assert(out@ =~= fault_message(row@, RelocationFault::Hex(name@, field@, e)));
        } else {
            assert(out@ =~= fault_message(row@, RelocationFault::Decimal(name@, field@, e)));
        }
    }
    VoError::InvalidRelocation(string_from_chars(out.as_slice()))
}

fn u8_field(row: &[char], name: &str, field: &[char]) -> (r: Result<u8, VoError>)
    ensures
        match parse_u8_field(field@, name@) {
            Ok(v) => r == Ok::<u8, VoError>(v),
            Err(f) => r matches Err(e) && fault_reported(row@, f, e),
        },
{
    match parse_unsigned_chars(field, 10, 255) {
        Ok(v) => Ok(v as u8),
        Err(e) => Err(number_error(row, name, field, e, false)),
    }
}

/// Reads a relocation from the characters of a row.
pub fn relocation_from_chars(row: &[char]) -> (r: Result<Relocation, VoError>)
    ensures
        match parse_relocation(row@) {
            Ok(f) => r matches Ok(rel) && fields_of(rel) == f,
            Err(f) => r matches Err(e) && fault_reported(row@, f, e),
        },
{
    let fields = split_whitespace(row);
    if fields.len() != 8 {
        let mut out: Vec<char> = Vec::new();
        push_str(&mut out, "expected 8 fields, found ");
        push_decimal(&mut out, fields.len() as u128);
        push_str(&mut out, ": ");
        out.extend_from_slice(row);
        assert(out@ =~= fault_message(row@, RelocationFault::FieldCount(fields@.len())));
        return Err(VoError::InvalidRelocation(string_from_chars(out.as_slice())));
    }
    let patch_offset = match parse_unsigned_chars(fields[0].as_slice(), 16, 0xFFFF_FFFF) {
        Ok(v) => v as u32,
        Err(e) => return Err(number_error(row, "patch_offset", fields[0].as_slice(), e, true)),
    };
    let symbol = string_from_chars(fields[1].as_slice());
    let addend = match parse_signed_chars(fields[2].as_slice(), 10, -0x8000_0000, 0x7FFF_FFFF) {
        Ok(v) => v as i32,
        Err(e) => return Err(number_error(row, "addend", fields[2].as_slice(), e, false)),
    };
    let base = match base_from_chars(fields[3].as_slice()) {
        Some(b) => b,
        None => return Err(VoError::InvalidRelocation(string_from_chars(fields[3].as_slice()))),
    };
    let sign = match sign_from_chars(fields[4].as_slice()) {
        Some(s) => s,
        None => return Err(VoError::InvalidSign(string_from_chars(fields[4].as_slice()))),
    };
    let value_shift = u8_field(row, "value_shift", fields[5].as_slice())?;
    let width = u8_field(row, "width", fields[6].as_slice())?;
    let field_shift = u8_field(row, "field_shift", fields[7].as_slice())?;
    Ok(Relocation { patch_offset, symbol, addend, base, sign, value_shift, width, field_shift })
}

impl Relocation {
    pub fn new(
        patch_offset: u32,
        symbol: String,
        addend: i32,
        base: RelocationBase,
        sign: RelocationSign,
        value_shift: u8,
        width: u8,
        field_shift: u8,
    ) -> (r: Self)
        ensures
            fields_of(r) == (patch_offset, symbol@, addend, base, sign, value_shift, width, field_shift),
    {
        Self { patch_offset, symbol, addend, base, sign, value_shift, width, field_shift }
    }

    /// Reads a relocation row.
    pub fn try_from(value: &str) -> (r: Result<Relocation, VoError>)
        ensures
            match parse_relocation(value@) {
                Ok(f) => r matches Ok(rel) && fields_of(rel) == f,
                Err(f) => r matches Err(e) && fault_reported(value@, f, e),
            },
    {
        let chars = chars_of(value);
        relocation_from_chars(chars.as_slice())
    }

    /// The characters of the relocation's row.
    pub fn to_chars(&self) -> (r: Vec<char>)
        ensures
            r@ == relocation_text(fields_of(*self)),
    {
        let mut out: Vec<char> = Vec::new();
        push_hex8(&mut out, self.patch_offset);
        push_str(&mut out, " ");
        push_str(&mut out, self.symbol.as_str());
        push_str(&mut out, " ");
        push_signed_decimal(&mut out, self.addend as i64);
        push_str(&mut out, " ");
        match self.base {
            RelocationBase::Absolute => push_str(&mut out, "abs"),
            RelocationBase::Relative => push_str(&mut out, "rel"),
        }
        push_str(&mut out, " ");
        match self.sign {
            RelocationSign::Unsigned => push_str(&mut out, "u"),
            RelocationSign::Signed => push_str(&mut out, "s"),
        }
        push_str(&mut out, " ");
        push_decimal(&mut out, self.value_shift as u128);
        push_str(&mut out, " ");
        push_decimal(&mut out, self.width as u128);
        push_str(&mut out, " ");
        push_decimal(&mut out, self.field_shift as u128);
        assert(out@ =~= relocation_text(fields_of(*self)));
        out
    }

    /// The relocation's row, as written in an object file.
    pub fn to_string(&self) -> (r: String)
        ensures
            r@ == relocation_text(fields_of(*self)),
    {
        let chars = self.to_chars();
        string_from_chars(chars.as_slice())
    }
}

impl std::str::FromStr for Relocation {
    type Err = VoError;

    fn from_str(s: &str) -> (r: Result<Self, Self::Err>)
        ensures
            match parse_relocation(s@) {
                Ok(f) => r matches Ok(rel) && fields_of(rel) == f,
                Err(f) => r matches Err(e) && fault_reported(s@, f, e),
            },
    {
        Self::try_from(s)
    }
}

} // verus!
