//! What the gateway hands to the transport, and what it answers a caller.

use crate::address::RawAddress;
use crate::status::HfpStatus;
use crate::telephony::{CallInfo, PhoneState, TelephonyDeviceStatus};
use vstd::prelude::*;

verus! {

/// A request for the transport. The embedding program performs it and hands
/// the transport's answer back to the profile.
#[derive(Debug, PartialEq, Eq)]
pub enum HfpRequest {
    /// Start the transport's side of the profile.
    Init,
    /// Stop the transport's side of the profile.
    Cleanup,
    /// Open the signaling link to a device.
    Connect(RawAddress),
    /// Open the audio link: the device, whether the transport should offload
    /// the audio path, and the codecs to leave out of the negotiation.
    ConnectAudio(RawAddress, bool, i32),
    /// Route audio to a device.
    SetActiveDevice(RawAddress),
    /// Tell a device the speaker volume.
    SetVolume(i8, RawAddress),
    /// Tell a device the microphone volume.
    SetMicVolume(i8, RawAddress),
    /// Close the signaling link to a device.
    Disconnect(RawAddress),
    /// Close the audio link to a device.
    DisconnectAudio(RawAddress),
    /// Tell a device the local device's status.
    DeviceStatusNotification(TelephonyDeviceStatus, RawAddress),
    /// Answer a device's indicator query.
    IndicatorQueryResponse(TelephonyDeviceStatus, PhoneState, RawAddress),
    /// Answer a device's query for the current calls.
    CurrentCallsQueryResponse(Vec<CallInfo>, RawAddress),
    /// Tell a device that the phone's state changed; the number is the one
    /// dialed, or empty.
    PhoneStateChange(PhoneState, String, RawAddress),
    /// Answer a device's command with OK or ERROR.
    SimpleAtResponse(bool, RawAddress),
    /// Ask the transport for a diagnostic snapshot.
    DebugDump,
}

/// What the caller of an operation gets in the end.
#[derive(Clone, Copy, Debug, PartialEq, Eq, Structural)]
pub enum Answer {
    /// A status: the gateway's own, or the transport's code as a status.
    Status(HfpStatus),
    /// The transport's integer, handed on as it came.
    Raw(u32),
}

impl HfpRequest {
    /// Whether the transport's answer to the request is a raw integer that
    /// the caller gets as it came: so it is for the audio link, the active
    /// device and the speaker volume.
    pub open spec fn passthrough(self) -> bool {
        ||| self is ConnectAudio
        ||| self is DisconnectAudio
        ||| self is SetActiveDevice
        ||| self is SetVolume
    }

    /// What the caller gets where the transport answers the request with
    /// `raw`: the integer itself for a passthrough request, and for every
    /// other request the status that stands for it.
    pub open spec fn answer(self, raw: u32) -> Answer {
        if self.passthrough() {
            Answer::Raw(raw)
        } else {
            Answer::Status(HfpStatus::of_raw(raw))
        }
    }

    /// Whether the caller gets the transport's raw answer to the request.
    pub fn is_passthrough(&self) -> (yes: bool)
        ensures
            yes == self.passthrough(),
    {
        match self {
            HfpRequest::ConnectAudio(_, _, _) => true,
            HfpRequest::DisconnectAudio(_) => true,
            HfpRequest::SetActiveDevice(_) => true,
            HfpRequest::SetVolume(_, _) => true,
            _ => false,
        }
    }
}

/// What the gateway decided about an operation.
#[derive(Debug, PartialEq, Eq)]
pub enum Decision {
    /// The caller is answered at once; nothing goes to the transport.
    Reply(HfpStatus),
    /// The request goes to the transport, whose answer decides the outcome.
    Submit(HfpRequest),
}

impl Decision {
    /// Whether a request goes to the transport.
    pub fn is_submit(&self) -> (yes: bool)
        ensures
            yes == (*self is Submit),
    {
        match self {
            Decision::Submit(_) => true,
            Decision::Reply(_) => false,
        }
    }
}

} // verus!
