use vstd::prelude::*;

verus! {

/// Classification of a failure reported by this library or relayed from the
/// operating system.
#[derive(Clone, Copy, Debug, PartialEq, Eq, Structural)]
pub enum ErrorKind {
    /// The device node does not exist.
    NotFound,
    /// The caller may not access the device node.
    PermissionDenied,
    /// The device refused because a conflicting operation is in progress.
    Busy,
    /// The device or this library rejected an argument. Enumeration loops
    /// additionally use this kind, when reported by the driver, as the
    /// end-of-list sentinel.
    InvalidArgument,
    /// The operation or control type is not supported.
    Unsupported,
    /// The caller violated a protocol precondition; detected and rejected
    /// before any device interaction.
    PreconditionViolation,
    /// Any other failure.
    Other,
}

/// A failure: a kind together with the raw operating-system error code where
/// one exists (`0` when the error was raised by this library itself).
#[derive(Clone, Copy, Debug, PartialEq, Eq, Structural)]
pub struct Error {
    pub kind: ErrorKind,
    pub code: i32,
}

impl Error {
    /// An error raised by the library itself, carrying no OS code.
    pub fn new(kind: ErrorKind) -> (r: Error)
        ensures
            r.kind == kind,
            r.code == 0,
    {
        Error { kind, code: 0 }
    }
}

} // verus!
