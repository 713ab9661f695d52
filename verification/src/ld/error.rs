use vstd::prelude::*;

verus! {

/// Why linking failed.
#[derive(Debug, Clone, PartialEq, Eq)]
pub enum LinkerError {
    DuplicateLabel(String),
    UnknownLabel(String),
    InvalidRange(String),
    ObjectError(String),
    IOError(String),
}

/// The message a linker error carries.
pub open spec fn linker_error_text(e: LinkerError) -> Seq<char> {
    match e {
        LinkerError::DuplicateLabel(m) => m@,
        LinkerError::UnknownLabel(m) => m@,
        LinkerError::InvalidRange(m) => m@,
        LinkerError::ObjectError(m) => m@,
        LinkerError::IOError(m) => m@,
    }
}

impl LinkerError {
    /// The error as text: its message.
    pub fn to_string(&self) -> (r: String)
        ensures
            r@ == linker_error_text(*self),
    {
        match self {
            LinkerError::DuplicateLabel(m) => m.clone(),
            LinkerError::UnknownLabel(m) => m.clone(),
            LinkerError::InvalidRange(m) => m.clone(),
            LinkerError::ObjectError(m) => m.clone(),
            LinkerError::IOError(m) => m.clone(),
        }
    }
}

} // verus!
