//! Disassembly listings: one line per word of a binary, with its address,
//! its bytes as text, the word in hex and the instruction it encodes.
use vstd::prelude::*;

use crate::text::{hex_upper, push_hex_padded, push_str, string_from_chars, zero_padded};

use super::decode::{decode, spec_decode};
use super::display::instruction_text;

verus! {

/// How a byte shows in the text column: printable ASCII as itself, any
/// other byte as a dot.
pub open spec fn shown_char(b: u8) -> char {
    if 0x20 <= b <= 0x7E {
        b as char
    } else {
        '.'
    }
}

/// The text column of a chunk.
pub open spec fn shown_text(chunk: Seq<u8>) -> Seq<char>
    decreases chunk.len(),
{
    if chunk.len() == 0 {
        Seq::empty()
    } else {
        shown_text(chunk.drop_last()).push(shown_char(chunk.last()))
    }
}

/// The bytes of a chunk as two hex digits each.
pub open spec fn hex_bytes(chunk: Seq<u8>) -> Seq<char>
    decreases chunk.len(),
{
    if chunk.len() == 0 {
        Seq::empty()
    } else {
        hex_bytes(chunk.drop_last()) + zero_padded(hex_upper(chunk.last() as nat), 2)
    }
}

/// The big-endian word of four bytes.
pub open spec fn chunk_word(chunk: Seq<u8>) -> u32 {
    (chunk[0] as u32 * 0x100_0000 + chunk[1] as u32 * 0x1_0000 + chunk[2] as u32 * 0x100 + chunk[3] as u32) as u32
}

/// A listing line: the address in eight hex digits, a colon and a space, the
/// text column, a space; then, for a whole word, the word in eight hex digits,
/// a space and the instruction it encodes (nothing when it encodes none); for
/// the shorter chunk at the end of a binary, its bytes in hex.
pub open spec fn listing_text(address: u64, chunk: Seq<u8>) -> Seq<char> {
    let head = zero_padded(hex_upper(address as nat), 8) + ": "@ + shown_text(chunk) + " "@;
    if chunk.len() == 4 {
        let w = chunk_word(chunk);
        head + zero_padded(hex_upper(w as nat), 8) + " "@ + match spec_decode(w) {
            Ok(i) => instruction_text(i),
            Err(_) => Seq::empty(),
        }
    } else {
        head + hex_bytes(chunk)
    }
}

/// The listing line of the chunk of a binary at `address`.
pub fn listing_line(address: u64, chunk: &[u8]) -> (r: String)
    ensures
        r@ == listing_text(address, chunk@),
{
    let mut out: Vec<char> = Vec::new();
    push_hex_padded(&mut out, address, 8);
    push_str(&mut out, ": ");
    let ghost start = out@;
    let mut k: usize = 0;
    while k < chunk.len()
        invariant
            k <= chunk@.len(),
            out@ == start + shown_text(chunk@.take(k as int)),
        decreases chunk@.len() - k,
    {
        let b = chunk[k];
        if 0x20 <= b && b <= 0x7E {
            out.push(b as char);
        } else {
            out.push('.');
        }
        assert(chunk@.take(k + 1).drop_last() =~= chunk@.take(k as int));
        k += 1;
    }
    assert(chunk@.take(chunk@.len() as int) =~= chunk@);
    push_str(&mut out, " ");
    if chunk.len() == 4 {
        let w = (chunk[0] as u32) * 0x100_0000 + (chunk[1] as u32) * 0x1_0000 + (chunk[2] as u32) * 0x100 + (chunk[3] as u32);
        push_hex_padded(&mut out, w as u64, 8);
        push_str(&mut out, " ");
        match decode(w) {
            Ok(i) => {
                let text = i.to_chars();
                out.extend_from_slice(text.as_slice());
            },
            Err(_) => {},
        }
    } else {
        let ghost mid = out@;
        let mut j: usize = 0;
        while j < chunk.len()
            invariant
                j <= chunk@.len(),
                out@ == mid + hex_bytes(chunk@.take(j as int)),
            decreases chunk@.len() - j,
        {
            push_hex_padded(&mut out, chunk[j] as u64, 2);
            assert(chunk@.take(j + 1).drop_last() =~= chunk@.take(j as int));
            j += 1;
        }
    }
    assert(out@ =~= listing_text(address, chunk@));
    string_from_chars(out.as_slice())
}

} // verus!
