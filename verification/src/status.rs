//! Completion codes of the backing facility, and the error built from them.

use vstd::prelude::*;
use windows_sys::Win32::Foundation::{NTSTATUS, STATUS_SUCCESS};

verus! {

/// A completion code as the facility returns it. One value means success;
/// every other value is a failure, and which failure is for the caller to
/// read from the code.
#[derive(Copy, Clone, Debug, PartialEq, Eq, Structural)]
pub struct NtStatus(pub NTSTATUS);

/// `windows_sys::Win32::Foundation::STATUS_SUCCESS`, the one code that means
/// success. The constant is zero.
#[verifier::external_body]
fn status_success() -> (code: NTSTATUS)
    ensures
        code == 0,
{
    STATUS_SUCCESS
}

impl NtStatus {
    /// The code is the success code.
    pub open spec fn succeeded(&self) -> bool {
        self.0 == 0
    }

    /// The code is any other code.
    pub open spec fn failed(&self) -> bool {
        self.0 != 0
    }

    /// True if the code is the success code.
    #[verifier::when_used_as_spec(succeeded)]
    pub fn is_ok(&self) -> (ok: bool)
        ensures
            ok == self.succeeded(),
    {
        self.0 == status_success()
    }

    /// True if the code is not the success code.
    #[verifier::when_used_as_spec(failed)]
    pub fn is_err(&self) -> (err: bool)
        ensures
            err == self.failed(),
            err == !self.succeeded(),
    {
        self.0 != status_success()
    }
}

/// What can go wrong in the allocator's own operations.
#[derive(Copy, Clone, Debug, PartialEq, Eq, Structural)]
pub enum LookasideError {
    /// The facility refused to initialize the list; the code is the one it
    /// returned.
    InitError(NtStatus),
}

/// Result of an allocator operation.
pub type LookasideResult<T> = Result<T, LookasideError>;

} // verus!
