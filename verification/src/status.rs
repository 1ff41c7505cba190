//! The uniform status that every gateway operation reports.

use vstd::prelude::*;

verus! {

/// Code with which a transport reports success.
pub const RAW_SUCCESS: u32 = 0;

/// Code with which a transport reports that it is not ready.
pub const RAW_NOT_READY: u32 = 2;

/// Outcome of a gateway operation.
#[derive(Clone, Copy, Debug, PartialEq, Eq, Structural)]
pub enum HfpStatus {
    /// The operation was accepted.
    Success,
    /// The profile is disabled, or the transport said it is not ready.
    NotReady,
    /// The device's signaling or audio state does not permit the operation.
    InvalidState,
    /// A codec bit-set holds a bit outside the known positions.
    InvalidCodec,
    /// The transport reported a failure; the raw code is kept as it came.
    TransportFailure(u32),
}

impl HfpStatus {
    /// The status that stands for a raw transport code: the two codes that
    /// have a status of their own map to it, every other code is kept inside
    /// `TransportFailure`.
    pub open spec fn of_raw(raw: u32) -> HfpStatus {
        if raw == RAW_SUCCESS {
            HfpStatus::Success
        } else if raw == RAW_NOT_READY {
            HfpStatus::NotReady
        } else {
            HfpStatus::TransportFailure(raw)
        }
    }

    /// Normalizes a raw transport code.
    pub fn from_raw(raw: u32) -> (status: HfpStatus)
        ensures
            status == Self::of_raw(raw),
    {
        if raw == RAW_SUCCESS {
            HfpStatus::Success
        } else if raw == RAW_NOT_READY {
            HfpStatus::NotReady
        } else {
            HfpStatus::TransportFailure(raw)
        }
    }

    /// Whether the status is `Success`.
    pub fn is_success(&self) -> (ok: bool)
        ensures
            ok == (*self == HfpStatus::Success),
    {
        match self {
            HfpStatus::Success => true,
            _ => false,
        }
    }
}

} // verus!
