use vstd::prelude::*;

use crate::error::OverlayError;

verus! {

/// Largest handle value that can be handed to the host as an `i64`.
pub const MAX_HOST_HANDLE: u64 = 0x7fff_ffff_ffff_ffff;

/// A runtime overlay handle. The host sees it as a non-negative `i64`;
/// the runtime sees it as a `u64`.
#[derive(Clone, Copy, Debug, PartialEq, Eq)]
pub struct OverlayHandle(pub u64);

/// What a host handle means: a negative value is refused, any other is
/// the runtime handle of the same value.
pub open spec fn host_handle(value: i64) -> Result<OverlayHandle, OverlayError> {
    if value < 0 {
        Err(OverlayError::NegativeHandle)
    } else {
        Ok(OverlayHandle(value as u64))
    }
}

impl OverlayHandle {
    /// Accepts a handle from the host; negative values are rejected.
    pub fn from_i64(value: i64) -> (r: Result<OverlayHandle, OverlayError>)
        ensures
            r == host_handle(value),
    {
        if value < 0 {
            return Err(OverlayError::NegativeHandle);
        }
        Ok(OverlayHandle(value as u64))
    }

    pub fn from_u64(value: u64) -> (r: OverlayHandle)
        ensures
            r.0 == value,
    {
        OverlayHandle(value)
    }

    pub fn as_u64(self) -> (r: u64)
        ensures
            r == self.0,
    {
        self.0
    }

    /// Hands the handle to the host; values above `i64::MAX` are rejected.
    pub fn to_i64(self) -> (r: Result<i64, OverlayError>)
        ensures
            self.0 <= MAX_HOST_HANDLE ==> r == Ok::<i64, OverlayError>(self.0 as i64),
            self.0 > MAX_HOST_HANDLE ==> r == Err::<i64, OverlayError>(OverlayError::HandleOutOfRange),
    {
        if self.0 <= MAX_HOST_HANDLE {
            Ok(self.0 as i64)
        } else {
            Err(OverlayError::HandleOutOfRange)
        }
    }
}

/// Converts a host handle into a runtime handle.
pub fn overlay_handle(handle: i64) -> (r: Result<OverlayHandle, OverlayError>)
    ensures
        r == host_handle(handle),
{
    OverlayHandle::from_i64(handle)
}

} // verus!
