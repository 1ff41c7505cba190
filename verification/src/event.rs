//! The events that the transport and the peers raise.

use crate::address::RawAddress;
use crate::state::{BthfAudioState, BthfConnectionState};
use crate::telephony::CallHoldCommand;
use vstd::prelude::*;

verus! {

/// An event for the subscriber. Every event but the diagnostic snapshot names
/// the device it comes from.
#[derive(Debug, PartialEq, Eq)]
pub enum HfpCallbacks {
    /// The signaling link changed state.
    ConnectionState(BthfConnectionState, RawAddress),
    /// The audio link changed state.
    AudioState(BthfAudioState, RawAddress),
    /// The peer changed the speaker volume.
    VolumeUpdate(u8, RawAddress),
    /// The peer changed the microphone volume.
    MicVolumeUpdate(u8, RawAddress),
    /// The peer sent a vendor-specific command.
    VendorSpecificAtCommand(String, RawAddress),
    /// The peer reported its battery level.
    BatteryLevelUpdate(u8, RawAddress),
    /// Whether the peer can do wideband speech.
    WbsCapsUpdate(bool, RawAddress),
    /// Whether the peer can do super-wideband speech.
    SwbCapsUpdate(bool, RawAddress),
    /// The peer asks for the indicators.
    IndicatorQuery(RawAddress),
    /// The peer asks for the current calls.
    CurrentCallsQuery(RawAddress),
    /// The peer asks to answer the incoming call.
    AnswerCall(RawAddress),
    /// The peer asks to hang up.
    HangupCall(RawAddress),
    /// The peer asks to dial a number.
    DialCall(String, RawAddress),
    /// The peer asks to hold or release calls.
    CallHold(CallHoldCommand, RawAddress),
    /// A diagnostic snapshot: whether audio is active, the codec, the number
    /// of decoded frames, the packet loss ratio as the bits of a
    /// double-precision number, the begin and the end of the time window, and
    /// the packet status bitmap in hexadecimal and in binary digits.
    DebugDump(bool, u16, i32, u64, u64, u64, String, String),
}

impl Clone for HfpCallbacks {
    fn clone(&self) -> (copy: HfpCallbacks)
        ensures
            copy == *self,
    {
        match self {
            HfpCallbacks::ConnectionState(state, addr) => HfpCallbacks::ConnectionState(
                *state,
                *addr,
            ),
            HfpCallbacks::AudioState(state, addr) => HfpCallbacks::AudioState(*state, *addr),
            HfpCallbacks::VolumeUpdate(volume, addr) => HfpCallbacks::VolumeUpdate(*volume, *addr),
            HfpCallbacks::MicVolumeUpdate(volume, addr) => HfpCallbacks::MicVolumeUpdate(
                *volume,
                *addr,
            ),
            HfpCallbacks::VendorSpecificAtCommand(text, addr) => {
                HfpCallbacks::VendorSpecificAtCommand(text.clone(), *addr)
            },
            HfpCallbacks::BatteryLevelUpdate(level, addr) => HfpCallbacks::BatteryLevelUpdate(
                *level,
                *addr,
            ),
            HfpCallbacks::WbsCapsUpdate(supported, addr) => HfpCallbacks::WbsCapsUpdate(
                *supported,
                *addr,
            ),
            HfpCallbacks::SwbCapsUpdate(supported, addr) => HfpCallbacks::SwbCapsUpdate(
                *supported,
                *addr,
            ),
            HfpCallbacks::IndicatorQuery(addr) => HfpCallbacks::IndicatorQuery(*addr),
            HfpCallbacks::CurrentCallsQuery(addr) => HfpCallbacks::CurrentCallsQuery(*addr),
            HfpCallbacks::AnswerCall(addr) => HfpCallbacks::AnswerCall(*addr),
            HfpCallbacks::HangupCall(addr) => HfpCallbacks::HangupCall(*addr),
            HfpCallbacks::DialCall(number, addr) => HfpCallbacks::DialCall(number.clone(), *addr),
            HfpCallbacks::CallHold(command, addr) => HfpCallbacks::CallHold(*command, *addr),
            HfpCallbacks::DebugDump(active, codec, frames, loss, begin, end, hex, binary) => {
                HfpCallbacks::DebugDump(
                    *active,
                    *codec,
                    *frames,
                    *loss,
                    *begin,
                    *end,
                    hex.clone(),
                    binary.clone(),
                )
            },
        }
    }
}

impl HfpCallbacks {
    /// The device that an event comes from. Only the diagnostic snapshot
    /// comes from no device.
    pub open spec fn origin(self) -> Option<RawAddress> {
        match self {
            HfpCallbacks::ConnectionState(_, addr) => Some(addr),
            HfpCallbacks::AudioState(_, addr) => Some(addr),
            HfpCallbacks::VolumeUpdate(_, addr) => Some(addr),
            HfpCallbacks::MicVolumeUpdate(_, addr) => Some(addr),
            HfpCallbacks::VendorSpecificAtCommand(_, addr) => Some(addr),
            HfpCallbacks::BatteryLevelUpdate(_, addr) => Some(addr),
            HfpCallbacks::WbsCapsUpdate(_, addr) => Some(addr),
            HfpCallbacks::SwbCapsUpdate(_, addr) => Some(addr),
            HfpCallbacks::IndicatorQuery(addr) => Some(addr),
            HfpCallbacks::CurrentCallsQuery(addr) => Some(addr),
            HfpCallbacks::AnswerCall(addr) => Some(addr),
            HfpCallbacks::HangupCall(addr) => Some(addr),
            HfpCallbacks::DialCall(_, addr) => Some(addr),
            HfpCallbacks::CallHold(_, addr) => Some(addr),
            HfpCallbacks::DebugDump(..) => None,
        }
    }

    /// The device that an event comes from.
    pub fn address(&self) -> (addr: Option<RawAddress>)
        ensures
            addr == self.origin(),
            addr is None <==> *self is DebugDump,
    {
        match self {
            HfpCallbacks::ConnectionState(_, addr) => Some(*addr),
            HfpCallbacks::AudioState(_, addr) => Some(*addr),
            HfpCallbacks::VolumeUpdate(_, addr) => Some(*addr),
            HfpCallbacks::MicVolumeUpdate(_, addr) => Some(*addr),
            HfpCallbacks::VendorSpecificAtCommand(_, addr) => Some(*addr),
            HfpCallbacks::BatteryLevelUpdate(_, addr) => Some(*addr),
            HfpCallbacks::WbsCapsUpdate(_, addr) => Some(*addr),
            HfpCallbacks::SwbCapsUpdate(_, addr) => Some(*addr),
            HfpCallbacks::IndicatorQuery(addr) => Some(*addr),
            HfpCallbacks::CurrentCallsQuery(addr) => Some(*addr),
            HfpCallbacks::AnswerCall(addr) => Some(*addr),
            HfpCallbacks::HangupCall(addr) => Some(*addr),
            HfpCallbacks::DialCall(_, addr) => Some(*addr),
            HfpCallbacks::CallHold(_, addr) => Some(*addr),
            HfpCallbacks::DebugDump(..) => None,
        }
    }
}

/// What is to be done with an event.
#[derive(Clone, Copy, Debug, PartialEq, Eq, Structural)]
pub enum EventAction {
    /// Hand the event to the subscriber.
    Deliver,
    /// Drop the event: it asks for a step that the device's state does not
    /// permit, and no state was changed.
    Reject,
    /// Keep the event from delivery: no subscriber is registered. A state
    /// change that it reports was recorded.
    NoSubscriber,
}

} // verus!
