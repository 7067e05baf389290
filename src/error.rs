//! Recoverable errors and the mapping of driver status codes.
use vstd::prelude::*;

verus! {

/// An error handed back to the caller, with what is needed to diagnose it.
#[derive(Debug, Clone, Copy, PartialEq, Eq, Structural)]
pub enum AccelError {
    /// The requested device index is not below the number of devices.
    DeviceNotFound { id: usize, count: usize },
    /// A driver call returned a status other than success.
    Cuda { code: u32 },
    /// The operation is reserved for a memory kind that is not supported yet.
    NotSupported,
}

/// The status code by which the driver reports success.
pub const CUDA_SUCCESS: u32 = 0;

/// What a driver status means to the caller: success, or the status itself.
pub open spec fn status_outcome(code: u32) -> Result<(), AccelError> {
    if code == CUDA_SUCCESS {
        Ok(())
    } else {
        Err(AccelError::Cuda { code })
    }
}

/// Turns the status returned by a driver call into a `Result`.
pub fn status_to_result(code: u32) -> (r: Result<(), AccelError>)
    ensures
        r == status_outcome(code),
{
    if code == CUDA_SUCCESS {
        Ok(())
    } else {
        Err(AccelError::Cuda { code })
    }
}

} // verus!
