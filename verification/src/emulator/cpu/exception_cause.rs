use vstd::prelude::*;

verus! {

/// Why control transferred to an exception vector.
#[derive(Debug, Clone, Copy, PartialEq, Eq, Structural)]
pub enum ExceptionCause {
    Reset,
    IllegalInstruction,
    MisalignedInstructionFetch,
    MisalignedDataAccess,
    SoftwareTrap,
    SystemCall,
    TimerInterrupt,
    ExternalInterrupt,
    BusError,
}

pub open spec fn spec_cause_code(c: ExceptionCause) -> u32 {
    match c {
        ExceptionCause::Reset => 0,
        ExceptionCause::IllegalInstruction => 1,
        ExceptionCause::MisalignedInstructionFetch => 2,
        ExceptionCause::MisalignedDataAccess => 3,
        ExceptionCause::SoftwareTrap => 4,
        ExceptionCause::SystemCall => 5,
        ExceptionCause::TimerInterrupt => 6,
        ExceptionCause::ExternalInterrupt => 7,
        ExceptionCause::BusError => 8,
    }
}

impl ExceptionCause {
    /// Bytes of each slot of the vector table.
    pub const SLOT_SIZE: u32 = 16;
    /// Bytes of the whole vector table.
    pub const TABLE_SIZE: u32 = 9 * 16;

    /// The cause's code, as read from the ECAUSE register.
    pub fn code(self) -> (r: u32)
        ensures
            r == spec_cause_code(self),
    {
        match self {
            ExceptionCause::Reset => 0,
            ExceptionCause::IllegalInstruction => 1,
            ExceptionCause::MisalignedInstructionFetch => 2,
            ExceptionCause::MisalignedDataAccess => 3,
            ExceptionCause::SoftwareTrap => 4,
            ExceptionCause::SystemCall => 5,
            ExceptionCause::TimerInterrupt => 6,
            ExceptionCause::ExternalInterrupt => 7,
            ExceptionCause::BusError => 8,
        }
    }

    /// Offset of the cause's slot from the vector base.
    pub fn vector_offset(self) -> (r: u32)
        ensures
            r == spec_cause_code(self) * 16,
    {
        self.code() * Self::SLOT_SIZE
    }

    /// The cause with a code, or `None` for codes that name no cause.
    pub fn from_code(value: u32) -> (r: Option<ExceptionCause>)
        ensures
            r matches Some(c) ==> spec_cause_code(c) == value,
            r is None <==> value > 8,
    {
        if value == 0 {
            Some(ExceptionCause::Reset)
        } else if value == 1 {
            Some(ExceptionCause::IllegalInstruction)
        } else if value == 2 {
            Some(ExceptionCause::MisalignedInstructionFetch)
        } else if value == 3 {
            Some(ExceptionCause::MisalignedDataAccess)
        } else if value == 4 {
            Some(ExceptionCause::SoftwareTrap)
        } else if value == 5 {
            Some(ExceptionCause::SystemCall)
        } else if value == 6 {
            Some(ExceptionCause::TimerInterrupt)
        } else if value == 7 {
            Some(ExceptionCause::ExternalInterrupt)
        } else if value == 8 {
            Some(ExceptionCause::BusError)
        } else {
            None
        }
    }
}

} // verus!
