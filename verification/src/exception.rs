use vstd::prelude::*;

verus! {

/// An error the host hands to the guest as its pending exception.
pub struct OcError {
    pub code: OcErrorCode,
    pub message: String,
}

/// The kinds of error a guest can be told about.
#[derive(Clone, Copy, Debug, PartialEq, Eq, Structural)]
pub enum OcErrorCode {
    NoComponent,
    MethodNotFound,
    OutOfMemory,
    InvalidArg,
    IoError,
    Unknown,
}

/// The number by which each error kind is known on the guest side.
pub open spec fn error_code_number(code: OcErrorCode) -> i32 {
    match code {
        OcErrorCode::NoComponent => 1,
        OcErrorCode::MethodNotFound => 2,
        OcErrorCode::OutOfMemory => 3,
        OcErrorCode::InvalidArg => 4,
        OcErrorCode::IoError => 5,
        OcErrorCode::Unknown => 99,
    }
}

impl OcErrorCode {
    /// The guest-visible number of this error kind.
    pub fn number(&self) -> (n: i32)
        ensures
            n == error_code_number(*self),
    {
        match self {
            OcErrorCode::NoComponent => 1,
            OcErrorCode::MethodNotFound => 2,
            OcErrorCode::OutOfMemory => 3,
            OcErrorCode::InvalidArg => 4,
            OcErrorCode::IoError => 5,
            OcErrorCode::Unknown => 99,
        }
    }
}

/// How a guest can stop abnormally.
pub enum GuestException {
    Halt,
    OcError { code: i32, msg_ptr: i32 },
    Other(String),
}

} // verus!
