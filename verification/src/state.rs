//! The two link states of a device and the steps that each may take.
//!
//! A device has a signaling link and an audio link. Each is a small state
//! machine; the audio link may only come up while the signaling link stands.

use vstd::prelude::*;

verus! {

/// State of the signaling link to one device.
#[derive(Clone, Copy, Debug, PartialEq, Eq, Structural, PartialOrd)]
pub enum BthfConnectionState {
    Disconnected,
    Connecting,
    Connected,
    SlcConnected,
    Disconnecting,
}

impl BthfConnectionState {
    /// The state's number on the wire.
    pub open spec fn number(self) -> u32 {
        match self {
            BthfConnectionState::Disconnected => 0,
            BthfConnectionState::Connecting => 1,
            BthfConnectionState::Connected => 2,
            BthfConnectionState::SlcConnected => 3,
            BthfConnectionState::Disconnecting => 4,
        }
    }

    /// The state with a given number, if there is one.
    pub fn from_u32(item: u32) -> (state: Option<BthfConnectionState>)
        ensures
            item <= 4 <==> state is Some,
            state matches Some(s) ==> s.number() == item,
    {
        match item {
            0 => Some(BthfConnectionState::Disconnected),
            1 => Some(BthfConnectionState::Connecting),
            2 => Some(BthfConnectionState::Connected),
            3 => Some(BthfConnectionState::SlcConnected),
            4 => Some(BthfConnectionState::Disconnecting),
            _ => None,
        }
    }

    /// The state with a given number, for a number that names one.
    pub fn from(item: u32) -> (state: BthfConnectionState)
        requires
            item <= 4,
        ensures
            state.number() == item,
    {
        match item {
            0 => BthfConnectionState::Disconnected,
            1 => BthfConnectionState::Connecting,
            2 => BthfConnectionState::Connected,
            3 => BthfConnectionState::SlcConnected,
            _ => BthfConnectionState::Disconnecting,
        }
    }

    /// The state's number.
    pub fn to_u32(&self) -> (item: u32)
        ensures
            item == self.number(),
    {
        match self {
            BthfConnectionState::Disconnected => 0,
            BthfConnectionState::Connecting => 1,
            BthfConnectionState::Connected => 2,
            BthfConnectionState::SlcConnected => 3,
            BthfConnectionState::Disconnecting => 4,
        }
    }

    /// Whether the signaling link stands: it has been confirmed and no
    /// teardown has begun. Only then may an audio link be opened.
    pub open spec fn is_up(self) -> bool {
        self == BthfConnectionState::Connected || self == BthfConnectionState::SlcConnected
    }

    /// Whether an audio link may exist beside a signaling link in this
    /// state: the link stands, or is being torn down.
    pub open spec fn carries_audio(self) -> bool {
        self.is_up() || self == BthfConnectionState::Disconnecting
    }

    /// Whether a teardown may begin in this state.
    pub open spec fn can_close(self) -> bool {
        self == BthfConnectionState::Connecting || self.is_up()
    }

    /// Whether the link may go from this state to `next` in one step:
    /// up the ladder one rung at a time, from any rung into the teardown, and
    /// from the teardown to the ground.
    pub open spec fn steps_to(self, next: BthfConnectionState) -> bool {
        match (self, next) {
            (BthfConnectionState::Disconnected, BthfConnectionState::Connecting) => true,
            (BthfConnectionState::Connecting, BthfConnectionState::Connected) => true,
            (BthfConnectionState::Connected, BthfConnectionState::SlcConnected) => true,
            (_, BthfConnectionState::Disconnecting) => self.can_close(),
            (BthfConnectionState::Disconnecting, BthfConnectionState::Disconnected) => true,
            _ => false,
        }
    }

    /// Whether the signaling link stands.
    pub fn up(&self) -> (yes: bool)
        ensures
            yes == self.is_up(),
    {
        match self {
            BthfConnectionState::Connected => true,
            BthfConnectionState::SlcConnected => true,
            _ => false,
        }
    }

    /// Whether the link may go from this state to `next` in one step.
    pub fn can_step_to(&self, next: &BthfConnectionState) -> (yes: bool)
        ensures
            yes == self.steps_to(*next),
    {
        match (self, next) {
            (BthfConnectionState::Disconnected, BthfConnectionState::Connecting) => true,
            (BthfConnectionState::Connecting, BthfConnectionState::Connected) => true,
            (BthfConnectionState::Connected, BthfConnectionState::SlcConnected) => true,
            (BthfConnectionState::Connecting, BthfConnectionState::Disconnecting) => true,
            (BthfConnectionState::Connected, BthfConnectionState::Disconnecting) => true,
            (BthfConnectionState::SlcConnected, BthfConnectionState::Disconnecting) => true,
            (BthfConnectionState::Disconnecting, BthfConnectionState::Disconnected) => true,
            _ => false,
        }
    }
}

/// State of the audio link to one device.
#[derive(Clone, Copy, Debug, PartialEq, Eq, Structural, PartialOrd)]
pub enum BthfAudioState {
    Disconnected,
    Connecting,
    Connected,
    Disconnecting,
}

impl BthfAudioState {
    /// The state's number on the wire.
    pub open spec fn number(self) -> u32 {
        match self {
            BthfAudioState::Disconnected => 0,
            BthfAudioState::Connecting => 1,
            BthfAudioState::Connected => 2,
            BthfAudioState::Disconnecting => 3,
        }
    }

    /// The state with a given number, if there is one.
    pub fn from_u32(item: u32) -> (state: Option<BthfAudioState>)
        ensures
            item <= 3 <==> state is Some,
            state matches Some(s) ==> s.number() == item,
    {
        match item {
            0 => Some(BthfAudioState::Disconnected),
            1 => Some(BthfAudioState::Connecting),
            2 => Some(BthfAudioState::Connected),
            3 => Some(BthfAudioState::Disconnecting),
            _ => None,
        }
    }

    /// The state with a given number, for a number that names one.
    pub fn from(item: u32) -> (state: BthfAudioState)
        requires
            item <= 3,
        ensures
            state.number() == item,
    {
        match item {
            0 => BthfAudioState::Disconnected,
            1 => BthfAudioState::Connecting,
            2 => BthfAudioState::Connected,
            _ => BthfAudioState::Disconnecting,
        }
    }

    /// Whether a teardown may begin in this state.
    pub open spec fn can_close(self) -> bool {
        self == BthfAudioState::Connecting || self == BthfAudioState::Connected
    }

    /// Whether the audio link may go from this state to `next` in one step,
    /// beside a signaling link in state `link`. The first step, out of
    /// `Disconnected`, needs a signaling link that stands.
    pub open spec fn steps_to(self, next: BthfAudioState, link: BthfConnectionState) -> bool {
        match (self, next) {
            (BthfAudioState::Disconnected, BthfAudioState::Connecting) => link.is_up(),
            (BthfAudioState::Connecting, BthfAudioState::Connected) => true,
            (_, BthfAudioState::Disconnecting) => self.can_close(),
            (BthfAudioState::Disconnecting, BthfAudioState::Disconnected) => true,
            _ => false,
        }
    }

    /// Whether a teardown may begin in this state.
    pub fn closable(&self) -> (yes: bool)
        ensures
            yes == self.can_close(),
    {
        match self {
            BthfAudioState::Connecting => true,
            BthfAudioState::Connected => true,
            _ => false,
        }
    }

    /// Whether the audio link may go from this state to `next` in one step,
    /// beside a signaling link in state `link`.
    pub fn can_step_to(&self, next: &BthfAudioState, link: &BthfConnectionState) -> (yes: bool)
        ensures
            yes == self.steps_to(*next, *link),
    {
        match (self, next) {
            (BthfAudioState::Disconnected, BthfAudioState::Connecting) => link.up(),
            (BthfAudioState::Connecting, BthfAudioState::Connected) => true,
            (BthfAudioState::Connecting, BthfAudioState::Disconnecting) => true,
            (BthfAudioState::Connected, BthfAudioState::Disconnecting) => true,
            (BthfAudioState::Disconnecting, BthfAudioState::Disconnected) => true,
            _ => false,
        }
    }
}

} // verus!
