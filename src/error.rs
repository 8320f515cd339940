//! The handlers' own failure conditions and the numeric codes they surface as.

use vstd::prelude::*;

verus! {

/// A failure that a read or write handler reports on its own.
#[derive(Clone, Copy, Debug, PartialEq, Eq, Structural)]
pub enum EchoError {
    /// The caller handed no I/O descriptor, or the caller's bytes end before
    /// the transfer does.
    Fault,
    /// A write asked for an offset other than zero or the current length.
    InvalidArgument,
}

/// Relies on libc::EFAULT, the platform's "bad address" code, which is
/// non-zero on every target of libc.
#[verifier::external_body]
fn efault() -> (r: i32)
    ensures
        r != 0,
{
    libc::EFAULT
}

/// Relies on libc::EINVAL, the platform's "invalid argument" code, which is
/// non-zero on every target of libc.
#[verifier::external_body]
fn einval() -> (r: i32)
    ensures
        r != 0,
{
    libc::EINVAL
}

impl EchoError {
    /// The platform's error number for this failure: the bad-address code for
    /// a fault, the invalid-argument code for a refused offset. Never zero,
    /// which reports success.
    pub fn code(&self) -> (r: i32)
        ensures
            r != 0,
    {
        match self {
            EchoError::Fault => efault(),
            EchoError::InvalidArgument => einval(),
        }
    }
}

} // verus!
