//! Status codes shared by the drivers and their clients.

use vstd::prelude::*;

verus! {

/// Outcome of a driver operation, as reported to the immediate caller.
#[allow(non_camel_case_types)]
#[derive(Debug, Clone, Copy, PartialEq, Eq, Structural)]
pub enum ReturnCode {
    /// The operation completed, or was accepted and is now in flight.
    SUCCESS,
    /// Hardware reported the operation failed.
    FAIL,
    /// Transient busy condition; re-issuing the same poll may succeed.
    EBUSY,
    /// The caller supplied an invalid parameter.
    EINVAL,
    /// The requested length does not fit the supplied buffer.
    ESIZE,
    /// Hardware cancelled the operation.
    ECANCEL,
    /// The request or status code is not supported.
    ENOSUPPORT,
}

} // verus!
