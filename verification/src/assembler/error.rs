use vstd::prelude::*;

use crate::isa::EncodeError;
use crate::text::{dec_digits, push_decimal, push_str, string_from_chars};
use crate::vo::error::vo_error_text;
use crate::vo::VoError;

verus! {

/// Why a source line could not be assembled.
#[derive(Debug, Clone, PartialEq, Eq)]
pub enum ParseError {
    InvalidInstruction(String),
    InvalidName(String),
    DuplicateLabel(String),
    ObjectError(VoError),
    /// A file the source names could not be read; the text describes why.
    IOError(String),
    DataAlignmentError(String),
    InvalidStringLiteral(String),
    InvalidNumber(String),
    EncodeError(EncodeError),
}

/// A parse error with the file and line it occurred on.
#[derive(Debug, Clone, PartialEq, Eq)]
pub struct AssemblerError {
    pub err: ParseError,
    pub filename: String,
    pub line: usize,
}

/// How an encoding error prints for debugging.
pub open spec fn encode_error_debug(e: EncodeError) -> Seq<char> {
    match e {
        EncodeError::InvalidImmediate { size, value } => "InvalidImmediate { size: "@ + dec_digits(size as nat) + ", value: "@
            + dec_digits(value as nat) + " }"@,
        EncodeError::InvalidPayload(v) => "InvalidPayload("@ + dec_digits(v as nat) + ")"@,
        EncodeError::InvalidRegister(r) => "InvalidRegister("@ + dec_digits(r as nat) + ")"@,
    }
}

/// The text of a parse error.
pub open spec fn parse_error_text(e: ParseError) -> Seq<char> {
    match e {
        ParseError::InvalidInstruction(m) => m@,
        ParseError::InvalidName(n) => "Invalid symbol name: "@ + n@,
        ParseError::DuplicateLabel(m) => m@,
        ParseError::ObjectError(v) => vo_error_text(v),
        ParseError::IOError(m) => m@,
        ParseError::DataAlignmentError(m) => m@,
        ParseError::InvalidNumber(m) => m@,
        ParseError::InvalidStringLiteral(m) => m@,
        ParseError::EncodeError(x) => encode_error_debug(x),
    }
}

fn push_encode_error_debug(out: &mut Vec<char>, e: EncodeError)
    ensures
        final(out)@ == old(out)@ + encode_error_debug(e),
{
    let ghost start = out@;
    match e {
        EncodeError::InvalidImmediate { size, value } => {
            push_str(out, "InvalidImmediate { size: ");
            push_decimal(out, size as u128);
            push_str(out, ", value: ");
            push_decimal(out, value as u128);
            push_str(out, " }");
        },
        EncodeError::InvalidPayload(v) => {
            push_str(out, "InvalidPayload(");
            push_decimal(out, v as u128);
            push_str(out, ")");
        },
        EncodeError::InvalidRegister(r) => {
            push_str(out, "InvalidRegister(");
            push_decimal(out, r as u128);
            push_str(out, ")");
        },
    }
    assert(out@ =~= start + encode_error_debug(e));
}

impl ParseError {
    /// Appends the error's text.
    pub fn push_text(&self, out: &mut Vec<char>)
        ensures
            final(out)@ == old(out)@ + parse_error_text(*self),
    {
        let ghost start = out@;
        match self {
            ParseError::InvalidInstruction(m) => push_str(out, m.as_str()),
            ParseError::InvalidName(n) => {
                push_str(out, "Invalid symbol name: ");
                push_str(out, n.as_str());
            },
            ParseError::DuplicateLabel(m) => push_str(out, m.as_str()),
            ParseError::ObjectError(v) => v.push_text(out),
            ParseError::IOError(m) => push_str(out, m.as_str()),
            ParseError::DataAlignmentError(m) => push_str(out, m.as_str()),
            ParseError::InvalidNumber(m) => push_str(out, m.as_str()),
            ParseError::InvalidStringLiteral(m) => push_str(out, m.as_str()),
            ParseError::EncodeError(x) => push_encode_error_debug(out, *x),
        }
        assert(out@ =~= start + parse_error_text(*self));
    }

    /// The error as text.
    pub fn to_string(&self) -> (r: String)
        ensures
            r@ == parse_error_text(*self),
    {
        let mut out: Vec<char> = Vec::new();
        self.push_text(&mut out);
        assert(out@ =~= parse_error_text(*self));
        string_from_chars(out.as_slice())
    }
}

/// The text of an assembler error: the file and line in brackets, then the
/// parse error.
pub open spec fn assembler_error_text(e: AssemblerError) -> Seq<char> {
    "["@ + e.filename@ + ":"@ + dec_digits(e.line as nat) + "] "@ + parse_error_text(e.err)
}

impl AssemblerError {
    /// The error as text.
    pub fn to_string(&self) -> (r: String)
        ensures
            r@ == assembler_error_text(*self),
    {
        let mut out: Vec<char> = Vec::new();
        push_str(&mut out, "[");
        push_str(&mut out, self.filename.as_str());
        push_str(&mut out, ":");
        push_decimal(&mut out, self.line as u128);
        push_str(&mut out, "] ");
        self.err.push_text(&mut out);
        assert(out@ =~= assembler_error_text(*self));
        string_from_chars(out.as_slice())
    }
}

} // verus!
