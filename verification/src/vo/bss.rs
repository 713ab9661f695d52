use vstd::prelude::*;

use crate::text::{
    chars_of, hex8, parse_unsigned, parse_unsigned_chars, push_hex8, push_str, split_whitespace, string_from_chars,
    words, IntParseError,
};

verus! {

/// A named block of zero-initialised memory that the linker places.
#[derive(Debug, Default, Clone, PartialEq, Eq)]
pub struct Bss {
    pub alignment: u32,
    pub size: u32,
    pub name: String,
}

/// Why a BSS row could not be read.
#[derive(Debug, Clone, Copy, PartialEq, Eq, Structural)]
pub enum BssParseError {
    MissingAlignment,
    MissingSize,
    MissingName,
    InvalidAlignment(IntParseError),
    InvalidSize(IntParseError),
    ExtraFields,
}

/// A BSS row: alignment and size as eight hex digits each, then the name.
pub open spec fn bss_text(alignment: u32, size: u32, name: Seq<char>) -> Seq<char> {
    hex8(alignment) + seq![' '] + hex8(size) + seq![' '] + name
}

/// What a BSS row holds: three whitespace-separated fields, a hex alignment,
/// a hex size and a name.
pub open spec fn parse_bss(s: Seq<char>) -> Result<(u32, u32, Seq<char>), BssParseError> {
    let w = words(s);
    if w.len() < 1 {
        Err(BssParseError::MissingAlignment)
    } else if w.len() < 2 {
        Err(BssParseError::MissingSize)
    } else if w.len() < 3 {
        Err(BssParseError::MissingName)
    } else if w.len() > 3 {
        Err(BssParseError::ExtraFields)
    } else {
        match parse_unsigned(w[0], 16, u32::MAX as int) {
            Err(e) => Err(BssParseError::InvalidAlignment(e)),
            Ok(a) => match parse_unsigned(w[1], 16, u32::MAX as int) {
                Err(e) => Err(BssParseError::InvalidSize(e)),
                Ok(z) => Ok((a as u32, z as u32, w[2])),
            },
        }
    }
}

/// Reads a BSS entry from the characters of a row.
pub fn bss_from_chars(chars: &[char]) -> (r: Result<Bss, BssParseError>)
    ensures
        match r {
            Ok(b) => parse_bss(chars@) == Ok::<(u32, u32, Seq<char>), BssParseError>((b.alignment, b.size, b.name@)),
            Err(e) => parse_bss(chars@) == Err::<(u32, u32, Seq<char>), BssParseError>(e),
        },
{
    let parts = split_whitespace(chars);
    if parts.len() < 1 {
        return Err(BssParseError::MissingAlignment);
    }
    if parts.len() < 2 {
        return Err(BssParseError::MissingSize);
    }
    if parts.len() < 3 {
        return Err(BssParseError::MissingName);
    }
    if parts.len() > 3 {
        return Err(BssParseError::ExtraFields);
    }
    let alignment = match parse_unsigned_chars(parts[0].as_slice(), 16, 0xFFFF_FFFF) {
        Ok(v) => v as u32,
        Err(e) => return Err(BssParseError::InvalidAlignment(e)),
    };
    let size = match parse_unsigned_chars(parts[1].as_slice(), 16, 0xFFFF_FFFF) {
        Ok(v) => v as u32,
        Err(e) => return Err(BssParseError::InvalidSize(e)),
    };
    Ok(Bss { alignment, size, name: string_from_chars(parts[2].as_slice()) })
}

impl Bss {
    /// Reads a BSS row: `<alignment in hex> <size in hex> <name>`.
    pub fn try_from(value: &str) -> (r: Result<Bss, BssParseError>)
        ensures
            match r {
                Ok(b) => parse_bss(value@) == Ok::<(u32, u32, Seq<char>), BssParseError>((b.alignment, b.size, b.name@)),
                Err(e) => parse_bss(value@) == Err::<(u32, u32, Seq<char>), BssParseError>(e),
            },
    {
        let chars = chars_of(value);
        bss_from_chars(chars.as_slice())
    }

    /// The characters of the entry's row.
    pub fn to_chars(&self) -> (r: Vec<char>)
        ensures
            r@ == bss_text(self.alignment, self.size, self.name@),
    {
        let mut out: Vec<char> = Vec::new();
        push_hex8(&mut out, self.alignment);
        out.push(' ');
        push_hex8(&mut out, self.size);
        out.push(' ');
        push_str(&mut out, self.name.as_str());
        assert(out@ =~= bss_text(self.alignment, self.size, self.name@));
        out
    }

    /// The entry's row, as written in an object file.
    pub fn to_string(&self) -> (r: String)
        ensures
            r@ == bss_text(self.alignment, self.size, self.name@),
    {
        let chars = self.to_chars();
        string_from_chars(chars.as_slice())
    }
}

impl std::str::FromStr for Bss {
    type Err = BssParseError;

    fn from_str(s: &str) -> (r: Result<Self, Self::Err>)
        ensures
            match r {
                Ok(b) => parse_bss(s@) == Ok::<(u32, u32, Seq<char>), BssParseError>((b.alignment, b.size, b.name@)),
                Err(e) => parse_bss(s@) == Err::<(u32, u32, Seq<char>), BssParseError>(e),
            },
    {
        Self::try_from(s)
    }
}

} // verus!
