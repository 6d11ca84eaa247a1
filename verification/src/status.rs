use vstd::prelude::*;

use crate::error::{outcome, result_view, Error};

verus! {

/// Status codes returned by fallible C ABI functions (`Success` is the C
/// ABI's `Ok`).
#[derive(Debug, Clone, Copy, PartialEq, Eq, Structural)]
pub enum VzdStatus {
    Success,
    Error,
    InvalidArgument,
    NotRunning,
    FileNotFound,
}

/// What one C ABI call answered: its status code, the value it wrote to its
/// out-parameter (meaningful only when the status is `Ok`), and the
/// thread-local error message the ABI recorded for the call.
pub struct Reply<T> {
    pub status: VzdStatus,
    pub value: T,
    pub message: String,
}

impl<T> Reply<T> {
    /// Bundles the parts of a C ABI answer.
    pub fn new(status: VzdStatus, value: T, message: String) -> (r: Self)
        ensures
            r.status == status,
            r.value == value,
            r.message@ == message@,
    {
        Reply { status, value, message }
    }

    /// The result this answer stands for: the value when the status is
    /// `Success`, else the error the status stands for.
    pub fn into_result(self) -> (r: Result<T, Error>)
        ensures
            result_view(r) == outcome(self.status, self.message@, self.value),
    {
        match self.status {
            VzdStatus::Success => Ok(self.value),
            _ => Err(Error::from_status(self.status, self.message)),
        }
    }
}

} // verus!
