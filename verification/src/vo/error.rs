use vstd::prelude::*;

use crate::text::{push_str, string_from_chars, IntParseError};

use super::bss::BssParseError;
use super::symbol::SymbolParseError;

verus! {

/// Why an object file, or one of its rows, could not be read.
#[derive(Debug, Clone, PartialEq, Eq)]
pub enum VoError {
    InvalidObject(String),
    InvalidRelocation(String),
    InvalidSign(String),
    ShiftError,
    WidthError,
    BssError(BssParseError),
    SymbolError(SymbolParseError),
}

/// The name of an integer parse error's kind.
pub open spec fn int_error_kind(e: IntParseError) -> Seq<char> {
    match e {
        IntParseError::Empty => "Empty"@,
        IntParseError::InvalidDigit => "InvalidDigit"@,
        IntParseError::PosOverflow => "PosOverflow"@,
        IntParseError::NegOverflow => "NegOverflow"@,
    }
}

/// How the standard library's integer parse error prints for debugging.
pub open spec fn int_error_debug(e: IntParseError) -> Seq<char> {
    "ParseIntError { kind: "@ + int_error_kind(e) + " }"@
}

/// How a BSS row error prints for debugging.
pub open spec fn bss_error_debug(e: BssParseError) -> Seq<char> {
    match e {
        BssParseError::MissingAlignment => "MissingAlignment"@,
        BssParseError::MissingSize => "MissingSize"@,
        BssParseError::MissingName => "MissingName"@,
        BssParseError::InvalidAlignment(k) => "InvalidAlignment("@ + int_error_debug(k) + ")"@,
        BssParseError::InvalidSize(k) => "InvalidSize("@ + int_error_debug(k) + ")"@,
        BssParseError::ExtraFields => "ExtraFields"@,
    }
}

/// How a symbol row error prints for debugging.
pub open spec fn symbol_error_debug(e: SymbolParseError) -> Seq<char> {
    match e {
        SymbolParseError::MissingOffset => "MissingOffset"@,
        SymbolParseError::MissingName => "MissingName"@,
        SymbolParseError::ExtraFields => "ExtraFields"@,
        SymbolParseError::InvalidOffset(k) => "InvalidOffset("@ + int_error_debug(k) + ")"@,
    }
}

/// The text of an object error.
pub open spec fn vo_error_text(e: VoError) -> Seq<char> {
    match e {
        VoError::InvalidObject(m) => "InvalidObject: "@ + m@,
        VoError::InvalidRelocation(m) => "InvalidRelocation: "@ + m@,
        VoError::InvalidSign(m) => "InvalidSign: "@ + m@,
        VoError::ShiftError => "ShiftError"@,
        VoError::WidthError => "WidthError"@,
        VoError::BssError(b) => "BssError: "@ + bss_error_debug(b),
        VoError::SymbolError(b) => "SymbolError: "@ + symbol_error_debug(b),
    }
}

fn push_int_error_debug(out: &mut Vec<char>, e: IntParseError)
    ensures
        final(out)@ == old(out)@ + int_error_debug(e),
{
    let ghost start = out@;
    push_str(out, "ParseIntError { kind: ");
    match e {
        IntParseError::Empty => push_str(out, "Empty"),
        IntParseError::InvalidDigit => push_str(out, "InvalidDigit"),
        IntParseError::PosOverflow => push_str(out, "PosOverflow"),
        IntParseError::NegOverflow => push_str(out, "NegOverflow"),
    }
    push_str(out, " }");
    assert(out@ =~= start + int_error_debug(e));
}

/// Appends how a BSS row error prints for debugging.
pub fn push_bss_error_debug(out: &mut Vec<char>, e: BssParseError)
    ensures
        final(out)@ == old(out)@ + bss_error_debug(e),
{
    let ghost start = out@;
    match e {
        BssParseError::MissingAlignment => push_str(out, "MissingAlignment"),
        BssParseError::MissingSize => push_str(out, "MissingSize"),
        BssParseError::MissingName => push_str(out, "MissingName"),
        BssParseError::InvalidAlignment(k) => {
            push_str(out, "InvalidAlignment(");
            push_int_error_debug(out, k);
            push_str(out, ")");
        },
        BssParseError::InvalidSize(k) => {
            push_str(out, "InvalidSize(");
            push_int_error_debug(out, k);
            push_str(out, ")");
        },
        BssParseError::ExtraFields => push_str(out, "ExtraFields"),
    }
    assert(out@ =~= start + bss_error_debug(e));
}

/// Appends how a symbol row error prints for debugging.
pub fn push_symbol_error_debug(out: &mut Vec<char>, e: SymbolParseError)
    ensures
        final(out)@ == old(out)@ + symbol_error_debug(e),
{
    let ghost start = out@;
    match e {
        SymbolParseError::MissingOffset => push_str(out, "MissingOffset"),
        SymbolParseError::MissingName => push_str(out, "MissingName"),
        SymbolParseError::ExtraFields => push_str(out, "ExtraFields"),
        SymbolParseError::InvalidOffset(k) => {
            push_str(out, "InvalidOffset(");
            push_int_error_debug(out, k);
            push_str(out, ")");
        },
    }
    assert(out@ =~= start + symbol_error_debug(e));
}

impl VoError {
    /// Appends the error's text.
    pub fn push_text(&self, out: &mut Vec<char>)
        ensures
            final(out)@ == old(out)@ + vo_error_text(*self),
    {
        let ghost start = out@;
        match self {
            VoError::InvalidObject(m) => {
                push_str(out, "InvalidObject: ");
                push_str(out, m.as_str());
            },
            VoError::InvalidRelocation(m) => {
                push_str(out, "InvalidRelocation: ");
                push_str(out, m.as_str());
            },
            VoError::InvalidSign(m) => {
                push_str(out, "InvalidSign: ");
                push_str(out, m.as_str());
            },
            VoError::ShiftError => push_str(out, "ShiftError"),
            VoError::WidthError => push_str(out, "WidthError"),
            VoError::BssError(e) => {
                push_str(out, "BssError: ");
                push_bss_error_debug(out, *e);
            },
            VoError::SymbolError(e) => {
                push_str(out, "SymbolError: ");
                push_symbol_error_debug(out, *e);
            },
        }
        assert(out@ =~= start + vo_error_text(*self));
    }

    /// The error as text: the variant's name, then what it carries.
    pub fn to_string(&self) -> (r: String)
        ensures
            r@ == vo_error_text(*self),
    {
        let mut out: Vec<char> = Vec::new();
        self.push_text(&mut out);
        assert(out@ =~= vo_error_text(*self));
        string_from_chars(out.as_slice())
    }
}

} // verus!
