use vstd::prelude::*;

use crate::text::{dec_digits, hex_upper, push_decimal, push_hex_padded, push_str, string_from_chars, zero_padded};

verus! {

/// Why a bus access failed.
#[derive(Debug, Clone, Copy, PartialEq, Eq, Structural)]
pub enum SystemBusError {
    /// An address computation left the 32-bit address space.
    AddressOverflow,
    /// No device answers at this address.
    AddressUnmapped { addr: u32 },
    /// A device refused the kind of access.
    UnsupportedAccess { addr: u32 },
    /// A halfword or word access to an address that is not a multiple of its size.
    MisalignedAccess { addr: u32, alignment: u32 },
}

/// An address as `0x` and eight upper-case hex digits.
pub open spec fn address_text(addr: u32) -> Seq<char> {
    "0x"@ + zero_padded(hex_upper(addr as nat), 8)
}

/// The text of a bus error.
pub open spec fn bus_error_text(e: SystemBusError) -> Seq<char> {
    match e {
        SystemBusError::UnsupportedAccess { addr } => "UnsupportedAccess: "@ + address_text(addr),
        SystemBusError::AddressUnmapped { addr } => "unmapped bus address: "@ + address_text(addr),
        SystemBusError::MisalignedAccess { addr, alignment } => "misaligned bus access: "@ + address_text(addr) + ", ["@
            + dec_digits(alignment as nat) + "]"@,
        SystemBusError::AddressOverflow => "bus address overflow"@,
    }
}

fn push_address(out: &mut Vec<char>, addr: u32)
    ensures
        final(out)@ == old(out)@ + address_text(addr),
{
    let ghost start = out@;
    push_str(out, "0x");
    push_hex_padded(out, addr as u64, 8);
    assert(out@ =~= start + address_text(addr));
}

impl SystemBusError {
    /// The error as text.
    pub fn to_string(&self) -> (r: String)
        ensures
            r@ == bus_error_text(*self),
    {
        let mut out: Vec<char> = Vec::new();
        match *self {
            SystemBusError::UnsupportedAccess { addr } => {
                push_str(&mut out, "UnsupportedAccess: ");
                push_address(&mut out, addr);
            },
            SystemBusError::AddressUnmapped { addr } => {
                push_str(&mut out, "unmapped bus address: ");
                push_address(&mut out, addr);
            },
            SystemBusError::MisalignedAccess { addr, alignment } => {
                push_str(&mut out, "misaligned bus access: ");
                push_address(&mut out, addr);
                push_str(&mut out, ", [");
                push_decimal(&mut out, alignment as u128);
                push_str(&mut out, "]");
            },
            SystemBusError::AddressOverflow => push_str(&mut out, "bus address overflow"),
        }
        assert(out@ =~= bus_error_text(*self));
        string_from_chars(out.as_slice())
    }
}

} // verus!
