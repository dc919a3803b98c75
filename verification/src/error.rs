//! Errors that system calls on namespaces report.
use vstd::prelude::*;

verus! {

/// The error codes of the namespace system calls.
#[derive(Clone, Copy, Debug, PartialEq, Eq, Structural)]
pub enum LxError {
    /// The process has no namespace of the kind the call works on.
    EUNDEF,
    /// A user buffer could not be read or written.
    EFAULT,
}

/// What a system call returns: a value for user space, or an error.
pub type SysResult = Result<usize, LxError>;

} // verus!
