//! The errors of the crate.
use vstd::prelude::*;

verus! {

/// The class an error falls in.
#[derive(Clone, Copy, Debug, PartialEq, Eq, Structural)]
pub enum ErrorKind {
    /// The caller handed in a value that no address can hold.
    InvalidInput,
    /// The kernel wrote something that is no address of the expected type.
    InvalidData,
    /// The kernel refused a call.
    Os,
}

/// Why an address could not be made, or why a call failed.
#[derive(Clone, Copy, Debug, PartialEq, Eq, Structural)]
pub enum SocketError {
    /// The path leaves no room for its terminator in a Unix address.
    PathTooLong,
    /// The family tag of the record is not `expected`.
    WrongFamily { expected: u16 },
    /// The reported length is more than the record can hold.
    TooLarge,
    /// The reported length ends before the family tag does.
    TooShort,
    /// The reported length is not the one size the record has.
    WrongSize,
    /// The kernel refused the call with this error number.
    Os(i32),
}

impl SocketError {
    /// The class of the error.
    pub open spec fn spec_kind(self) -> ErrorKind {
        match self {
            SocketError::PathTooLong => ErrorKind::InvalidInput,
            SocketError::Os(_) => ErrorKind::Os,
            _ => ErrorKind::InvalidData,
        }
    }

    /// The class of the error.
    #[verifier::when_used_as_spec(spec_kind)]
    pub fn kind(self) -> (kind: ErrorKind)
        ensures
            kind == self.spec_kind(),
    {
        match self {
            SocketError::PathTooLong => ErrorKind::InvalidInput,
            SocketError::Os(_) => ErrorKind::Os,
            _ => ErrorKind::InvalidData,
        }
    }

    /// The kernel's error number, where the kernel refused a call.
    pub open spec fn spec_raw_os_error(self) -> Option<i32> {
        match self {
            SocketError::Os(code) => Some(code),
            _ => None,
        }
    }

    /// The kernel's error number, where the kernel refused a call.
    #[verifier::when_used_as_spec(spec_raw_os_error)]
    pub fn raw_os_error(self) -> (code: Option<i32>)
        ensures
            code == self.spec_raw_os_error(),
    {
        match self {
            SocketError::Os(code) => Some(code),
            _ => None,
        }
    }
}

} // verus!
