use vstd::prelude::*;

verus! {

/// Control registers addressable by `mrs` / `msr`.
#[derive(Debug, Clone, Copy, PartialEq, Eq, Structural)]
pub enum Creg {
    PC,
    SR,
    EPC,
    ESR,
    ECause,
    EData,
    EvBase,
}

/// The 4-bit payload that encodes a control register.
pub open spec fn spec_creg_code(c: Creg) -> u32 {
    match c {
        Creg::PC => 0,
        Creg::SR => 1,
        Creg::EPC => 2,
        Creg::ESR => 3,
        Creg::ECause => 4,
        Creg::EData => 5,
        Creg::EvBase => 6,
    }
}

impl Creg {
    /// The encoding of this control register.
    pub fn code(self) -> (r: u32)
        ensures
            r == spec_creg_code(self),
    {
        match self {
            Creg::PC => 0,
            Creg::SR => 1,
            Creg::EPC => 2,
            Creg::ESR => 3,
            Creg::ECause => 4,
            Creg::EData => 5,
            Creg::EvBase => 6,
        }
    }
}

} // verus!
