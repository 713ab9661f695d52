use vstd::prelude::*;

use crate::text::{
    chars_of, hex8, parse_unsigned, parse_unsigned_chars, push_hex8, split_whitespace, string_from_chars, words,
    IntParseError,
};

verus! {

/// A named offset into an object's bytes.
#[derive(Debug, Default, Clone, PartialEq, Eq)]
pub struct Symbol {
    pub offset: u32,
    pub name: String,
}

/// Why a symbol row could not be read.
#[derive(Debug, Clone, Copy, PartialEq, Eq, Structural)]
pub enum SymbolParseError {
    MissingOffset,
    MissingName,
    ExtraFields,
    InvalidOffset(IntParseError),
}

/// A symbol row: the offset as eight hex digits, a space, the name.
pub open spec fn symbol_text(offset: u32, name: Seq<char>) -> Seq<char> {
    hex8(offset) + seq![' '] + name
}

/// What a symbol row holds: two whitespace-separated fields, a hex offset and a name.
pub open spec fn parse_symbol(s: Seq<char>) -> Result<(u32, Seq<char>), SymbolParseError> {
    let w = words(s);
    if w.len() < 1 {
        Err(SymbolParseError::MissingOffset)
    } else if w.len() < 2 {
        Err(SymbolParseError::MissingName)
    } else if w.len() > 2 {
        Err(SymbolParseError::ExtraFields)
    } else {
        match parse_unsigned(w[0], 16, u32::MAX as int) {
            Err(e) => Err(SymbolParseError::InvalidOffset(e)),
            Ok(v) => Ok((v as u32, w[1])),
        }
    }
}

/// Reads a symbol from the characters of a row.
pub fn symbol_from_chars(chars: &[char]) -> (r: Result<Symbol, SymbolParseError>)
    ensures
        match r {
            Ok(sym) => parse_symbol(chars@) == Ok::<(u32, Seq<char>), SymbolParseError>((sym.offset, sym.name@)),
            Err(e) => parse_symbol(chars@) == Err::<(u32, Seq<char>), SymbolParseError>(e),
        },
{
    let parts = split_whitespace(chars);
    if parts.len() < 1 {
        return Err(SymbolParseError::MissingOffset);
    }
    if parts.len() < 2 {
        return Err(SymbolParseError::MissingName);
    }
    if parts.len() > 2 {
        return Err(SymbolParseError::ExtraFields);
    }
    let offset = match parse_unsigned_chars(parts[0].as_slice(), 16, 0xFFFF_FFFF) {
        Ok(v) => v as u32,
        Err(e) => return Err(SymbolParseError::InvalidOffset(e)),
    };
    Ok(Symbol { offset, name: string_from_chars(parts[1].as_slice()) })
}

impl Symbol {
    /// Reads a symbol row: `<offset in hex> <name>`.
    pub fn try_from(value: &str) -> (r: Result<Symbol, SymbolParseError>)
        ensures
            match r {
                Ok(sym) => parse_symbol(value@) == Ok::<(u32, Seq<char>), SymbolParseError>((sym.offset, sym.name@)),
                Err(e) => parse_symbol(value@) == Err::<(u32, Seq<char>), SymbolParseError>(e),
            },
    {
        let chars = chars_of(value);
        symbol_from_chars(chars.as_slice())
    }

    /// The characters of the symbol's row.
    pub fn to_chars(&self) -> (r: Vec<char>)
        ensures
            r@ == symbol_text(self.offset, self.name@),
    {
        let mut out: Vec<char> = Vec::new();
        push_hex8(&mut out, self.offset);
        out.push(' ');
        crate::text::push_str(&mut out, self.name.as_str());
        assert(out@ =~= symbol_text(self.offset, self.name@));
        out
    }

    /// The symbol's row, as written in an object file.
    pub fn to_string(&self) -> (r: String)
        ensures
            r@ == symbol_text(self.offset, self.name@),
    {
        let chars = self.to_chars();
        string_from_chars(chars.as_slice())
    }
}

impl std::str::FromStr for Symbol {
    type Err = SymbolParseError;

    fn from_str(s: &str) -> (r: Result<Self, Self::Err>)
        ensures
            match r {
                Ok(sym) => parse_symbol(s@) == Ok::<(u32, Seq<char>), SymbolParseError>((sym.offset, sym.name@)),
                Err(e) => parse_symbol(s@) == Err::<(u32, Seq<char>), SymbolParseError>(e),
            },
    {
        Self::try_from(s)
    }
}

} // verus!
