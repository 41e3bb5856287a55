//! What the transport through the kernel's printer device has to decide.

use vstd::prelude::*;
use crate::error::KernelError;

verus! {

impl KernelError {
    /// The error for a failed read or write of the device.
    pub fn from_io(error: std::io::Error) -> (res: KernelError)
        ensures
            res == KernelError::KernelIOError(error),
    {
        KernelError::KernelIOError(error)
    }

    /// Judges a write: it succeeded if the device took every byte it was
    /// given, and is an `IncompleteWrite` if it took fewer or more.
    pub fn check_write(bytes_written: usize, len: usize) -> (res: Result<(), KernelError>)
        ensures
            bytes_written == len ==> res is Ok,
            bytes_written != len ==> res == Err::<(), KernelError>(KernelError::IncompleteWrite),
    {
        if bytes_written != len {
            return Err(KernelError::IncompleteWrite);
        }
        Ok(())
    }
}

} // verus!
