//! The profile as a state machine over mathematical values.
//!
//! The model says what every gateway operation decides, what the transport's
//! answer to a request changes, and what an event changes. The executable
//! profile is proved to do exactly what the model says.

use crate::address::RawAddress;
use crate::event::{EventAction, HfpCallbacks};
use crate::request::HfpRequest;
use crate::state::{BthfAudioState, BthfConnectionState};
use crate::status::{HfpStatus, RAW_SUCCESS};
use crate::telephony::TelephonyDeviceStatus;
use vstd::prelude::*;

verus! {

/// The two links to one device.
pub struct Link {
    pub connection: BthfConnectionState,
    pub audio: BthfAudioState,
}

impl Link {
    /// Whether the two states can stand side by side in the table: the
    /// signaling link is not on the ground, and an audio link that is not on
    /// the ground has a signaling link that carries it.
    pub open spec fn sound(self) -> bool {
        &&& self.connection != BthfConnectionState::Disconnected
        &&& self.audio != BthfAudioState::Disconnected ==> self.connection.carries_audio()
    }
}

/// The state of the profile.
pub struct HfpModel {
    /// Whether the profile is enabled.
    pub enabled: bool,
    /// Whether a subscriber is registered.
    pub initialized: bool,
    /// The devices that have a session, each with its two links. A device
    /// without an entry has both links on the ground.
    pub links: Map<RawAddress, Link>,
    /// The device that audio is routed to.
    pub active: Option<RawAddress>,
    /// The speaker volume that was last requested.
    pub volume: Option<i8>,
    /// The microphone volume that was last requested.
    pub mic_volume: Option<i8>,
    /// The stored snapshot of the local device's status.
    pub device_status: TelephonyDeviceStatus,
}

impl HfpModel {
    /// The state of the signaling link to a device.
    pub open spec fn connection(self, addr: RawAddress) -> BthfConnectionState {
        if self.links.contains_key(addr) {
            self.links[addr].connection
        } else {
            BthfConnectionState::Disconnected
        }
    }

    /// The state of the audio link to a device.
    pub open spec fn audio(self, addr: RawAddress) -> BthfAudioState {
        if self.links.contains_key(addr) {
            self.links[addr].audio
        } else {
            BthfAudioState::Disconnected
        }
    }

    /// Whether every entry of the table is sound.
    pub open spec fn wf(self) -> bool {
        forall|addr: RawAddress| #[trigger]
            self.links.contains_key(addr) ==> self.links[addr].sound()
    }

    /// The state with the two links of one device replaced. A signaling link
    /// on the ground ends the device's session: its entry leaves the table,
    /// and the audio link with it.
    pub open spec fn with_link(
        self,
        addr: RawAddress,
        connection: BthfConnectionState,
        audio: BthfAudioState,
    ) -> HfpModel {
        HfpModel {
            links: if connection == BthfConnectionState::Disconnected {
                self.links.remove(addr)
            } else {
                self.links.insert(addr, Link { connection, audio })
            },
            ..self
        }
    }

    /// The answer to `connect`, or `None` where the request goes to the
    /// transport.
    pub open spec fn connect_gate(self, addr: RawAddress) -> Option<HfpStatus> {
        if !self.enabled {
            Some(HfpStatus::NotReady)
        } else {
            match self.connection(addr) {
                BthfConnectionState::Disconnected => None,
                BthfConnectionState::Disconnecting => Some(HfpStatus::InvalidState),
                _ => Some(HfpStatus::Success),
            }
        }
    }

    /// The answer to `connect_audio`, or `None` where the request goes to the
    /// transport.
    pub open spec fn connect_audio_gate(self, addr: RawAddress) -> Option<HfpStatus> {
        if !self.enabled {
            Some(HfpStatus::NotReady)
        } else if !self.audio(addr).steps_to(BthfAudioState::Connecting, self.connection(addr)) {
            Some(HfpStatus::InvalidState)
        } else {
            None
        }
    }

    /// The answer to `disconnect`, or `None` where the request goes to the
    /// transport.
    pub open spec fn disconnect_gate(self, addr: RawAddress) -> Option<HfpStatus> {
        if !self.enabled {
            Some(HfpStatus::NotReady)
        } else {
            match self.connection(addr) {
                BthfConnectionState::Disconnected => Some(HfpStatus::InvalidState),
                BthfConnectionState::Disconnecting => Some(HfpStatus::Success),
                _ => None,
            }
        }
    }

    /// The answer to `disconnect_audio`, or `None` where the request goes to
    /// the transport.
    pub open spec fn disconnect_audio_gate(self, addr: RawAddress) -> Option<HfpStatus> {
        if !self.enabled {
            Some(HfpStatus::NotReady)
        } else {
            match self.audio(addr) {
                BthfAudioState::Disconnected => Some(HfpStatus::InvalidState),
                BthfAudioState::Disconnecting => Some(HfpStatus::Success),
                _ => None,
            }
        }
    }

    /// The answer to an operation that needs nothing but an enabled profile,
    /// or `None` where the request goes to the transport.
    pub open spec fn enabled_gate(self) -> Option<HfpStatus> {
        if !self.enabled {
            Some(HfpStatus::NotReady)
        } else {
            None
        }
    }

    /// The state after the transport has answered a request with `raw`. A
    /// failure changes nothing. A success takes the step that the request
    /// asked for, if the device's state still permits it.
    pub open spec fn complete(self, request: HfpRequest, raw: u32) -> HfpModel {
        if raw != RAW_SUCCESS {
            self
        } else {
            match request {
                HfpRequest::Connect(addr) => if self.connection(addr).steps_to(
                    BthfConnectionState::Connecting,
                ) {
                    self.with_link(addr, BthfConnectionState::Connecting, self.audio(addr))
                } else {
                    self
                },
                HfpRequest::Disconnect(addr) => if self.connection(addr).can_close() {
                    self.with_link(addr, BthfConnectionState::Disconnecting, self.audio(addr))
                } else {
                    self
                },
                HfpRequest::ConnectAudio(addr, _, _) => if self.audio(addr).steps_to(
                    BthfAudioState::Connecting,
                    self.connection(addr),
                ) {
                    self.with_link(addr, self.connection(addr), BthfAudioState::Connecting)
                } else {
                    self
                },
                HfpRequest::DisconnectAudio(addr) => if self.audio(addr).can_close() {
                    self.with_link(addr, self.connection(addr), BthfAudioState::Disconnecting)
                } else {
                    self
                },
                HfpRequest::SetActiveDevice(addr) => HfpModel { active: Some(addr), ..self },
                _ => self,
            }
        }
    }

    /// Whether an event asks for a step that the device's state does not
    /// permit. An event that reports the state that the device is in already
    /// asks for no step. Only the two state changes can be refused.
    pub open spec fn refuses(self, event: HfpCallbacks) -> bool {
        match event {
            HfpCallbacks::ConnectionState(next, addr) => {
                &&& self.connection(addr) != next
                &&& !self.connection(addr).steps_to(next)
            },
            HfpCallbacks::AudioState(next, addr) => {
                &&& self.audio(addr) != next
                &&& !self.audio(addr).steps_to(next, self.connection(addr))
            },
            _ => false,
        }
    }

    /// The state after an event. A state change that is not refused is
    /// recorded; no other event changes anything.
    pub open spec fn after_event(self, event: HfpCallbacks) -> HfpModel {
        if self.refuses(event) {
            self
        } else {
            match event {
                HfpCallbacks::ConnectionState(next, addr) => if self.connection(addr) == next {
                    self
                } else {
                    self.with_link(addr, next, self.audio(addr))
                },
                HfpCallbacks::AudioState(next, addr) => if self.audio(addr) == next {
                    self
                } else {
                    self.with_link(addr, self.connection(addr), next)
                },
                _ => self,
            }
        }
    }

    /// What is to be done with an event.
    pub open spec fn action(self, event: HfpCallbacks) -> EventAction {
        if self.refuses(event) {
            EventAction::Reject
        } else if self.initialized {
            EventAction::Deliver
        } else {
            EventAction::NoSubscriber
        }
    }

    /// The state after `connect` on a device, where the transport answers
    /// `raw` if it is asked.
    pub open spec fn after_connect(self, addr: RawAddress, raw: u32) -> HfpModel {
        if self.connect_gate(addr) is None {
            self.complete(HfpRequest::Connect(addr), raw)
        } else {
            self
        }
    }

    /// The status that `connect` on a device reports in the end, where the
    /// transport answers `raw` if it is asked.
    pub open spec fn connect_status(self, addr: RawAddress, raw: u32) -> HfpStatus {
        match self.connect_gate(addr) {
            Some(status) => status,
            None => HfpStatus::of_raw(raw),
        }
    }

    /// The state after `set_active_device` on a device, where the transport
    /// answers `raw` if it is asked.
    pub open spec fn after_set_active_device(self, addr: RawAddress, raw: u32) -> HfpModel {
        if self.enabled_gate() is None {
            self.complete(HfpRequest::SetActiveDevice(addr), raw)
        } else {
            self
        }
    }
}

/// In a sound table, a device whose audio link is not on the ground has a
/// signaling link that is connected, service-level connected or
/// disconnecting.
pub proof fn lemma_audio_needs_link(model: HfpModel, addr: RawAddress)
    requires
        model.wf(),
    ensures
        model.audio(addr) != BthfAudioState::Disconnected ==> {
            ||| model.connection(addr) == BthfConnectionState::Connected
            ||| model.connection(addr) == BthfConnectionState::SlcConnected
            ||| model.connection(addr) == BthfConnectionState::Disconnecting
        },
{
    if model.links.contains_key(addr) {
        assert(model.links[addr].sound());
    }
}

/// The transport's answer to a request keeps a sound table sound.
pub proof fn lemma_complete_keeps_sound(model: HfpModel, request: HfpRequest, raw: u32)
    requires
        model.wf(),
    ensures
        model.complete(request, raw).wf(),
{
    let next = model.complete(request, raw);
    assert forall|addr: RawAddress| #[trigger] next.links.contains_key(addr) implies next.links[addr].sound() by {
        if model.links.contains_key(addr) {
            assert(model.links[addr].sound());
        }
    }
}

/// An event keeps a sound table sound.
pub proof fn lemma_event_keeps_sound(model: HfpModel, event: HfpCallbacks)
    requires
        model.wf(),
    ensures
        model.after_event(event).wf(),
{
    let next = model.after_event(event);
    assert forall|addr: RawAddress| #[trigger] next.links.contains_key(addr) implies next.links[addr].sound() by {
        if model.links.contains_key(addr) {
            assert(model.links[addr].sound());
        }
    }
}

/// Where the transport does not refuse the first of two `connect` calls on
/// one device, with no disconnect in between, the second call is answered at
/// once, reports what the first reported and changes nothing, whatever the
/// transport would have said: the device's state is the same after both.
pub proof fn lemma_connect_idempotent(model: HfpModel, addr: RawAddress, raw: u32)
    ensures
        ({
            let first = model.after_connect(addr, RAW_SUCCESS);
            &&& first.connect_gate(addr) is Some
            &&& first.connect_status(addr, raw) == model.connect_status(addr, RAW_SUCCESS)
            &&& first.after_connect(addr, raw) == first
        }),
{
    let first = model.after_connect(addr, RAW_SUCCESS);
    if model.connect_gate(addr) is None {
        assert(first.links.contains_key(addr));
    }
}

/// With the profile enabled, after `set_active_device` on one device and then
/// on a second, which the transport accepts, the second device is the active
/// one: no other device is, the first included.
pub proof fn lemma_last_active_device_wins(
    model: HfpModel,
    first: RawAddress,
    second: RawAddress,
    raw: u32,
)
    requires
        model.enabled,
    ensures
        model.after_set_active_device(first, raw).after_set_active_device(
            second,
            RAW_SUCCESS,
        ).active == Some(second),
{
}

} // verus!
