use vstd::prelude::*;

verus! {

/// Status vocabulary of the foreign-callable surface. Every boundary
/// operation returns one of these two codes and nothing richer.
#[derive(Clone, Copy, PartialEq, Eq, Structural, Debug)]
pub enum Status {
    /// The operation completed.
    Success,
    /// The operation failed; the caller must not read any out-parameter.
    GenericError,
}

/// Typed failures that can arise inside a boundary operation. All of them
/// collapse to `Status::GenericError` at the boundary.
#[derive(Clone, Copy, PartialEq, Eq, Structural, Debug)]
pub enum BoundaryError {
    /// Malformed foreign data was met while translating to internal form.
    Conversion,
    /// A null function pointer was supplied to a subscribe operation.
    MissingCallback,
    /// The wrapped internal operation itself failed.
    Internal,
}

/// Error translator: the single point where internal error types are erased
/// into the boundary's status vocabulary. Success maps to `Success`; every
/// typed failure maps to the one nonzero status.
pub fn wrap_status(outcome: Result<(), BoundaryError>) -> (s: Status)
    ensures
        s == Status::Success <==> outcome is Ok,
{
    match outcome {
        Ok(()) => Status::Success,
        Err(_) => Status::GenericError,
    }
}

} // verus!
