//! The profile: the command gateway and the event intake over one table of
//! devices.

use crate::address::RawAddress;
use crate::event::{EventAction, HfpCallbacks};
use crate::model::{HfpModel, Link};
use crate::request::{Answer, Decision, HfpRequest};
use crate::state::{BthfAudioState, BthfConnectionState};
use crate::status::{HfpStatus, RAW_SUCCESS};
use crate::telephony::{copy_calls, unique_indices, CallInfo, PhoneState, TelephonyDeviceStatus};
use vstd::prelude::*;

verus! {

/// The session of one device.
#[derive(Clone, Copy, Debug)]
struct DeviceRecord {
    addr: RawAddress,
    connection: BthfConnectionState,
    audio: BthfAudioState,
}

impl DeviceRecord {
    spec fn link(self) -> Link {
        Link { connection: self.connection, audio: self.audio }
    }
}

/// Whether a device has a record.
spec fn holds(records: Seq<DeviceRecord>, addr: RawAddress) -> bool {
    exists|i: int| 0 <= i < records.len() && records[i].addr == addr
}

/// The place of a device's record.
spec fn slot_of(records: Seq<DeviceRecord>, addr: RawAddress) -> int {
    choose|i: int| 0 <= i < records.len() && records[i].addr == addr
}

/// Whether no device has two records.
spec fn distinct(records: Seq<DeviceRecord>) -> bool {
    forall|i: int, j: int| 0 <= i < j < records.len() ==> records[i].addr != records[j].addr
}

/// The records as a table from device to links.
spec fn table(records: Seq<DeviceRecord>) -> Map<RawAddress, Link> {
    Map::new(
        |addr: RawAddress| holds(records, addr),
        |addr: RawAddress| records[slot_of(records, addr)].link(),
    )
}

/// Where no device has two records, the record at a place is the one that the
/// table shows for its device.
proof fn lemma_slot(records: Seq<DeviceRecord>, i: int)
    requires
        distinct(records),
        0 <= i < records.len(),
    ensures
        holds(records, records[i].addr),
        slot_of(records, records[i].addr) == i,
        table(records).contains_key(records[i].addr),
        table(records)[records[i].addr] == records[i].link(),
{
    let addr = records[i].addr;
    assert(holds(records, addr));
    let j = slot_of(records, addr);
    assert(0 <= j < records.len() && records[j].addr == addr);
    if i < j {
        assert(records[i].addr != records[j].addr);
    }
    if j < i {
        assert(records[j].addr != records[i].addr);
    }
}

/// Replacing the links in a record replaces the device's entry in the table.
proof fn lemma_table_update(records: Seq<DeviceRecord>, i: int, record: DeviceRecord)
    requires
        distinct(records),
        0 <= i < records.len(),
        record.addr == records[i].addr,
    ensures
        distinct(records.update(i, record)),
        table(records.update(i, record)) == table(records).insert(record.addr, record.link()),
{
    let after = records.update(i, record);
    assert(distinct(after)) by {
        assert forall|a: int, b: int| 0 <= a < b < after.len() implies after[a].addr
            != after[b].addr by {
            assert(records[a].addr != records[b].addr);
        }
    }
    let want = table(records).insert(record.addr, record.link());
    assert forall|addr: RawAddress| table(after).contains_key(addr) <==> want.contains_key(
        addr,
    ) by {
        if holds(after, addr) {
            let k = slot_of(after, addr);
            assert(records[k].addr == addr);
        }
        if holds(records, addr) {
            let k = slot_of(records, addr);
            assert(after[k].addr == addr);
        }
        lemma_slot(after, i);
    }
    assert forall|addr: RawAddress| table(after).contains_key(addr) implies table(after)[addr]
        == want[addr] by {
        let k = slot_of(after, addr);
        lemma_slot(after, k);
        if k != i {
            lemma_slot(records, k);
        }
    }
    assert(table(after) =~= want);
}

/// A record for a device that had none adds the device's entry to the table.
proof fn lemma_table_push(records: Seq<DeviceRecord>, record: DeviceRecord)
    requires
        distinct(records),
        !holds(records, record.addr),
    ensures
        distinct(records.push(record)),
        table(records.push(record)) == table(records).insert(record.addr, record.link()),
{
    let after = records.push(record);
    let n = records.len() as int;
    assert(distinct(after)) by {
        assert forall|a: int, b: int| 0 <= a < b < after.len() implies after[a].addr
            != after[b].addr by {
            if b < n {
                assert(records[a].addr != records[b].addr);
            } else {
                assert(records[a].addr == after[a].addr);
            }
        }
    }
    let want = table(records).insert(record.addr, record.link());
    assert forall|addr: RawAddress| table(after).contains_key(addr) <==> want.contains_key(
        addr,
    ) by {
        if holds(after, addr) {
            let k = slot_of(after, addr);
            if k < n {
                assert(records[k].addr == addr);
            }
        }
        if holds(records, addr) {
            let k = slot_of(records, addr);
            assert(after[k].addr == addr);
        }
        assert(after[n].addr == record.addr);
    }
    assert forall|addr: RawAddress| table(after).contains_key(addr) implies table(after)[addr]
        == want[addr] by {
        let k = slot_of(after, addr);
        lemma_slot(after, k);
        if k < n {
            lemma_slot(records, k);
        }
    }
    assert(table(after) =~= want);
}

/// Taking a record out takes the device's entry out of the table.
proof fn lemma_table_remove(records: Seq<DeviceRecord>, i: int)
    requires
        distinct(records),
        0 <= i < records.len(),
    ensures
        distinct(records.remove(i)),
        table(records.remove(i)) == table(records).remove(records[i].addr),
{
    let after = records.remove(i);
    let gone = records[i].addr;
    assert(distinct(after)) by {
        assert forall|a: int, b: int| 0 <= a < b < after.len() implies after[a].addr
            != after[b].addr by {
            let a0 = if a < i { a } else { a + 1 };
            let b0 = if b < i { b } else { b + 1 };
            assert(after[a] == records[a0]);
            assert(after[b] == records[b0]);
            assert(records[a0].addr != records[b0].addr);
        }
    }
    let want = table(records).remove(gone);
    assert forall|addr: RawAddress| table(after).contains_key(addr) <==> want.contains_key(
        addr,
    ) by {
        if holds(after, addr) {
            let k = slot_of(after, addr);
            let k0 = if k < i { k } else { k + 1 };
            assert(after[k] == records[k0]);
            assert(records[k0].addr == addr);
            if addr == gone {
                lemma_slot(records, i);
                lemma_slot(records, k0);
            }
        }
        if holds(records, addr) && addr != gone {
            let k = slot_of(records, addr);
            let k1 = if k < i { k } else { k - 1 };
            assert(after[k1] == records[k]);
            assert(after[k1].addr == addr);
        }
    }
    assert forall|addr: RawAddress| table(after).contains_key(addr) implies table(after)[addr]
        == want[addr] by {
        let k = slot_of(after, addr);
        lemma_slot(after, k);
        let k0 = if k < i { k } else { k + 1 };
        assert(after[k] == records[k0]);
        lemma_slot(records, k0);
    }
    assert(table(after) =~= want);
}

/// The hands-free profile.
///
/// The gateway operations decide; they never reach the transport. Where an
/// operation returns `Decision::Submit`, the embedding program performs the
/// request and hands the transport's answer to `complete`. The events that
/// the transport raises go through `dispatch`.
#[derive(Debug)]
pub struct Hfp {
    is_init: bool,
    is_enabled: bool,
    devices: Vec<DeviceRecord>,
    active: Option<RawAddress>,
    volume: Option<i8>,
    mic_volume: Option<i8>,
    device_status: TelephonyDeviceStatus,
}

impl View for Hfp {
    type V = HfpModel;

    closed spec fn view(&self) -> HfpModel {
        HfpModel {
            enabled: self.is_enabled,
            initialized: self.is_init,
            links: table(self.devices@),
            active: self.active,
            volume: self.volume,
            mic_volume: self.mic_volume,
            device_status: self.device_status,
        }
    }
}

impl Hfp {
    /// Whether the profile's table is in order: no device has two sessions,
    /// and the two links of every session can stand side by side. Every
    /// profile that `new` made and the operations changed is.
    pub closed spec fn wf(&self) -> bool {
        &&& distinct(self.devices@)
        &&& forall|i: int| 0 <= i < self.devices@.len() ==> (#[trigger] self.devices@[i]).link().sound()
    }

    /// The table of a profile that is in order is sound.
    pub proof fn lemma_sound(self)
        requires
            self.wf(),
        ensures
            self@.wf(),
    {
        assert forall|addr: RawAddress| #[trigger] self@.links.contains_key(addr) implies self@.links[addr].sound() by {
            let k = slot_of(self.devices@, addr);
            assert(self.devices@[k].link().sound());
        }
    }

    /// A profile that is disabled, has no subscriber, knows no device and
    /// holds the default device status.
    pub fn new() -> (hfp: Hfp)
        ensures
            !hfp@.enabled,
            !hfp@.initialized,
            hfp@.links == Map::<RawAddress, Link>::empty(),
            hfp@.active is None,
            hfp@.volume is None,
            hfp@.mic_volume is None,
            hfp@.device_status.is_default(),
            hfp.wf(),
    {
        let hfp = Hfp {
            is_init: false,
            is_enabled: false,
            devices: Vec::new(),
            active: None,
            volume: None,
            mic_volume: None,
            device_status: TelephonyDeviceStatus::new(),
        };
        proof {
            assert(hfp@.links =~= Map::<RawAddress, Link>::empty());
        }
        hfp
    }

    /// The place of a device's record, if it has one.
    fn find(&self, addr: &RawAddress) -> (slot: Option<usize>)
        ensures
            match slot {
                Some(i) => i < self.devices@.len() && self.devices@[i as int].addr == *addr,
                None => !holds(self.devices@, *addr),
            },
    {
        let n: usize = self.devices.len();
        let mut i: usize = 0;
        while i < n
            invariant
                n == self.devices@.len(),
                i <= n,
                forall|k: int| 0 <= k < i ==> self.devices@[k].addr != *addr,
            decreases n - i,
        {
            if self.devices[i].addr.same(addr) {
                return Some(i);
            }
            i += 1;
        }
        None
    }

    /// The two links of a device; both on the ground where it has no session.
    fn link(&self, addr: &RawAddress) -> (link: Link)
        requires
            self.wf(),
        ensures
            link.connection == self@.connection(*addr),
            link.audio == self@.audio(*addr),
            self@.wf(),
    {
        proof {
            self.lemma_sound();
        }
        match self.find(addr) {
            Some(i) => {
                proof {
                    lemma_slot(self.devices@, i as int);
                }
                Link { connection: self.devices[i].connection, audio: self.devices[i].audio }
            },
            None => Link {
                connection: BthfConnectionState::Disconnected,
                audio: BthfAudioState::Disconnected,
            },
        }
    }

    /// Replaces the two links of a device.
    fn put(&mut self, addr: RawAddress, connection: BthfConnectionState, audio: BthfAudioState)
        requires
            old(self).wf(),
            connection != BthfConnectionState::Disconnected ==> (Link { connection, audio }).sound(),
        ensures
            final(self).wf(),
            final(self)@ == old(self)@.with_link(addr, connection, audio),
    {
        let slot = self.find(&addr);
        let record = DeviceRecord { addr, connection, audio };
        match slot {
            Some(i) => {
                proof {
                    lemma_slot(self.devices@, i as int);
                }
                match connection {
                    BthfConnectionState::Disconnected => {
                        proof {
                            lemma_table_remove(self.devices@, i as int);
                        }
                        self.devices.remove(i);
                    },
                    _ => {
                        proof {
                            lemma_table_update(self.devices@, i as int, record);
                        }
                        self.devices[i] = record;
                    },
                }
            },
            None => {
                match connection {
                    BthfConnectionState::Disconnected => {
                        proof {
                            assert(table(self.devices@).remove(addr) =~= table(self.devices@));
                        }
                    },
                    _ => {
                        proof {
                            lemma_table_push(self.devices@, record);
                        }
                        self.devices.push(record);
                    },
                }
            },
        }
    }

    /// Whether a subscriber is registered.
    pub fn is_initialized(&self) -> (yes: bool)
        ensures
            yes == self@.initialized,
    {
        self.is_init
    }

    /// Whether the profile is enabled.
    pub fn is_enabled(&self) -> (yes: bool)
        ensures
            yes == self@.enabled,
    {
        self.is_enabled
    }

    /// The state of the signaling link to a device.
    pub fn connection_state(&self, addr: RawAddress) -> (state: BthfConnectionState)
        requires
            self.wf(),
        ensures
            state == self@.connection(addr),
    {
        self.link(&addr).connection
    }

    /// The state of the audio link to a device. Where it is not
    /// `Disconnected`, the signaling link to the device carries it.
    pub fn audio_state(&self, addr: RawAddress) -> (state: BthfAudioState)
        requires
            self.wf(),
        ensures
            state == self@.audio(addr),
            state != BthfAudioState::Disconnected ==> self@.connection(addr).carries_audio(),
    {
        proof {
            self.lemma_sound();
            crate::model::lemma_audio_needs_link(self@, addr);
        }
        self.link(&addr).audio
    }

    /// The device that audio is routed to, if any.
    pub fn active_device(&self) -> (active: Option<RawAddress>)
        ensures
            active == self@.active,
    {
        self.active
    }

    /// The speaker volume that was last requested, if any.
    pub fn last_volume(&self) -> (volume: Option<i8>)
        ensures
            volume == self@.volume,
    {
        self.volume
    }

    /// The microphone volume that was last requested, if any.
    pub fn last_mic_volume(&self) -> (volume: Option<i8>)
        ensures
            volume == self@.mic_volume,
    {
        self.mic_volume
    }

    /// The stored snapshot of the local device's status.
    pub fn device_status(&self) -> (status: TelephonyDeviceStatus)
        ensures
            status == self@.device_status,
    {
        self.device_status
    }

    /// Replaces the stored snapshot of the local device's status.
    pub fn set_device_status(&mut self, status: TelephonyDeviceStatus)
        requires
            old(self).wf(),
        ensures
            final(self).wf(),
            final(self)@ == (HfpModel { device_status: status, ..old(self)@ }),
    {
        self.device_status = status;
    }

    /// Registers the subscriber. There is one registration for the life of
    /// the profile: a profile that has a subscriber takes no second one.
    pub fn initialize(&mut self) -> (registered: bool)
        requires
            old(self).wf(),
            !old(self)@.initialized,
        ensures
            final(self).wf(),
            registered,
            final(self)@ == (HfpModel { initialized: true, ..old(self)@ }),
    {
        self.is_init = true;
        true
    }

    /// Enables the profile. The transport is to be started, whether or not
    /// the profile was enabled before.
    pub fn enable(&mut self) -> (request: HfpRequest)
        requires
            old(self).wf(),
        ensures
            final(self).wf(),
            final(self)@ == (HfpModel { enabled: true, ..old(self)@ }),
            request == HfpRequest::Init,
    {
        self.is_enabled = true;
        HfpRequest::Init
    }

    /// Disables the profile. Where it was enabled, the transport is to be
    /// stopped; where it was not, nothing is to be done.
    pub fn disable(&mut self) -> (request: Option<HfpRequest>)
        requires
            old(self).wf(),
        ensures
            final(self).wf(),
            final(self)@ == (HfpModel { enabled: false, ..old(self)@ }),
            request == if old(self)@.enabled {
                Some(HfpRequest::Cleanup)
            } else {
                None
            },
    {
        if self.is_enabled {
            self.is_enabled = false;
            Some(HfpRequest::Cleanup)
        } else {
            None
        }
    }

    /// Asks for the transport to be stopped, where the profile is enabled.
    /// The profile stays as it is.
    pub fn cleanup(&self) -> (request: Option<HfpRequest>)
        ensures
            request == if self@.enabled {
                Some(HfpRequest::Cleanup)
            } else {
                None
            },
    {
        if self.is_enabled {
            Some(HfpRequest::Cleanup)
        } else {
            None
        }
    }

    /// Asks the transport for a diagnostic snapshot. This is permitted in
    /// every state of the profile.
    pub fn debug_dump(&self) -> (request: HfpRequest)
        ensures
            request == HfpRequest::DebugDump,
    {
        HfpRequest::DebugDump
    }

    /// Opens the signaling link to a device. On a device that is connecting
    /// or connected already this succeeds at once and starts nothing anew.
    pub fn connect(&self, addr: RawAddress) -> (decision: Decision)
        requires
            self.wf(),
        ensures
            decision == match self@.connect_gate(addr) {
                Some(status) => Decision::Reply(status),
                None => Decision::Submit(HfpRequest::Connect(addr)),
            },
    {
        if !self.is_enabled {
            Decision::Reply(HfpStatus::NotReady)
        } else {
            match self.link(&addr).connection {
                BthfConnectionState::Disconnected => Decision::Submit(HfpRequest::Connect(addr)),
                BthfConnectionState::Disconnecting => Decision::Reply(HfpStatus::InvalidState),
                _ => Decision::Reply(HfpStatus::Success),
            }
        }
    }

    /// Opens the audio link to a device, leaving the codecs in
    /// `disabled_codecs` out of the negotiation. This needs a signaling link
    /// that stands and an audio link on the ground. The flag and the set of
    /// codecs go to the transport as they came.
    pub fn connect_audio(&self, addr: RawAddress, sco_offload: bool, disabled_codecs: i32) -> (decision:
        Decision)
        requires
            self.wf(),
        ensures
            decision == match self@.connect_audio_gate(addr) {
                Some(status) => Decision::Reply(status),
                None => Decision::Submit(
                    HfpRequest::ConnectAudio(addr, sco_offload, disabled_codecs),
                ),
            },
    {
        if !self.is_enabled {
            return Decision::Reply(HfpStatus::NotReady);
        }
        let link = self.link(&addr);
        if link.audio.can_step_to(&BthfAudioState::Connecting, &link.connection) {
            Decision::Submit(HfpRequest::ConnectAudio(addr, sco_offload, disabled_codecs))
        } else {
            Decision::Reply(HfpStatus::InvalidState)
        }
    }

    /// Routes audio to a device. The device becomes the active one when the
    /// transport has accepted the request.
    pub fn set_active_device(&self, addr: RawAddress) -> (decision: Decision)
        ensures
            decision == match self@.enabled_gate() {
                Some(status) => Decision::Reply(status),
                None => Decision::Submit(HfpRequest::SetActiveDevice(addr)),
            },
    {
        if !self.is_enabled {
            Decision::Reply(HfpStatus::NotReady)
        } else {
            Decision::Submit(HfpRequest::SetActiveDevice(addr))
        }
    }

    /// Tells a device the speaker volume. With the profile enabled the volume
    /// goes to the transport as it came, and is kept as the last one
    /// requested.
    pub fn set_volume(&mut self, volume: i8, addr: RawAddress) -> (decision: Decision)
        requires
            old(self).wf(),
        ensures
            final(self).wf(),
            match old(self)@.enabled_gate() {
                Some(status) => decision == Decision::Reply(status) && final(self)@ == old(self)@,
                None => {
                    &&& decision == Decision::Submit(HfpRequest::SetVolume(volume, addr))
                    &&& final(self)@ == (HfpModel { volume: Some(volume), ..old(self)@ })
                },
            },
    {
        if !self.is_enabled {
            Decision::Reply(HfpStatus::NotReady)
        } else {
            self.volume = Some(volume);
            Decision::Submit(HfpRequest::SetVolume(volume, addr))
        }
    }

    /// Tells a device the microphone volume. With the profile enabled the
    /// volume goes to the transport as it came, and is kept as the last one
    /// requested.
    pub fn set_mic_volume(&mut self, volume: i8, addr: RawAddress) -> (decision: Decision)
        requires
            old(self).wf(),
        ensures
            final(self).wf(),
            match old(self)@.enabled_gate() {
                Some(status) => decision == Decision::Reply(status) && final(self)@ == old(self)@,
                None => {
                    &&& decision == Decision::Submit(HfpRequest::SetMicVolume(volume, addr))
                    &&& final(self)@ == (HfpModel { mic_volume: Some(volume), ..old(self)@ })
                },
            },
    {
        if !self.is_enabled {
            Decision::Reply(HfpStatus::NotReady)
        } else {
            self.mic_volume = Some(volume);
            Decision::Submit(HfpRequest::SetMicVolume(volume, addr))
        }
    }

    /// Closes the signaling link to a device. This is accepted in every
    /// state but `Disconnected`, also while the link is still coming up;
    /// where the teardown has begun already, it succeeds at once.
    pub fn disconnect(&self, addr: RawAddress) -> (decision: Decision)
        requires
            self.wf(),
        ensures
            decision == match self@.disconnect_gate(addr) {
                Some(status) => Decision::Reply(status),
                None => Decision::Submit(HfpRequest::Disconnect(addr)),
            },
    {
        if !self.is_enabled {
            Decision::Reply(HfpStatus::NotReady)
        } else {
            match self.link(&addr).connection {
                BthfConnectionState::Disconnected => Decision::Reply(HfpStatus::InvalidState),
                BthfConnectionState::Disconnecting => Decision::Reply(HfpStatus::Success),
                _ => Decision::Submit(HfpRequest::Disconnect(addr)),
            }
        }
    }

    /// Closes the audio link to a device. This is accepted in every state
    /// but `Disconnected`, also while the link is still coming up; where the
    /// teardown has begun already, it succeeds at once.
    pub fn disconnect_audio(&self, addr: RawAddress) -> (decision: Decision)
        requires
            self.wf(),
        ensures
            decision == match self@.disconnect_audio_gate(addr) {
                Some(status) => Decision::Reply(status),
                None => Decision::Submit(HfpRequest::DisconnectAudio(addr)),
            },
    {
        if !self.is_enabled {
            Decision::Reply(HfpStatus::NotReady)
        } else {
            match self.link(&addr).audio {
                BthfAudioState::Disconnected => Decision::Reply(HfpStatus::InvalidState),
                BthfAudioState::Disconnecting => Decision::Reply(HfpStatus::Success),
                _ => Decision::Submit(HfpRequest::DisconnectAudio(addr)),
            }
        }
    }

    /// Tells a device the local device's status. Like every operation that
    /// only forwards, this asks for an enabled profile and nothing else.
    pub fn device_status_notification(&self, status: TelephonyDeviceStatus, addr: RawAddress) -> (decision:
        Decision)
        ensures
            decision == match self@.enabled_gate() {
                Some(refusal) => Decision::Reply(refusal),
                None => Decision::Submit(HfpRequest::DeviceStatusNotification(status, addr)),
            },
    {
        if !self.is_enabled {
            Decision::Reply(HfpStatus::NotReady)
        } else {
            Decision::Submit(HfpRequest::DeviceStatusNotification(status, addr))
        }
    }

    /// Answers a device's indicator query with the values given, whatever
    /// snapshot is stored.
    pub fn indicator_query_response(
        &self,
        device_status: TelephonyDeviceStatus,
        phone_state: PhoneState,
        addr: RawAddress,
    ) -> (decision: Decision)
        ensures
            decision == match self@.enabled_gate() {
                Some(refusal) => Decision::Reply(refusal),
                None => Decision::Submit(
                    HfpRequest::IndicatorQueryResponse(device_status, phone_state, addr),
                ),
            },
    {
        if !self.is_enabled {
            Decision::Reply(HfpStatus::NotReady)
        } else {
            Decision::Submit(HfpRequest::IndicatorQueryResponse(device_status, phone_state, addr))
        }
    }

    /// Answers a device's query for the current calls. The answer holds the
    /// entries of `call_list`, all of them and in their order. No two entries
    /// may share an index.
    pub fn current_calls_query_response(&self, call_list: &Vec<CallInfo>, addr: RawAddress) -> (decision:
        Decision)
        requires
            unique_indices(call_list@),
        ensures
            match self@.enabled_gate() {
                Some(refusal) => decision == Decision::Reply(refusal),
                None => {
                    &&& decision matches Decision::Submit(
                        HfpRequest::CurrentCallsQueryResponse(calls, to),
                    )
                    &&& calls@ == call_list@
                    &&& to == addr
                },
            },
    {
        if !self.is_enabled {
            Decision::Reply(HfpStatus::NotReady)
        } else {
            Decision::Submit(HfpRequest::CurrentCallsQueryResponse(copy_calls(call_list), addr))
        }
    }

    /// Tells a device that the phone's state changed. `number` is the number
    /// dialed, where a call goes out, and else empty.
    pub fn phone_state_change(&self, phone_state: PhoneState, number: &String, addr: RawAddress) -> (decision:
        Decision)
        ensures
            decision == match self@.enabled_gate() {
                Some(refusal) => Decision::Reply(refusal),
                None => Decision::Submit(HfpRequest::PhoneStateChange(phone_state, *number, addr)),
            },
    {
        if !self.is_enabled {
            Decision::Reply(HfpStatus::NotReady)
        } else {
            Decision::Submit(HfpRequest::PhoneStateChange(phone_state, number.clone(), addr))
        }
    }

    /// Answers a device's command with OK or ERROR.
    pub fn simple_at_response(&self, ok: bool, addr: RawAddress) -> (decision: Decision)
        ensures
            decision == match self@.enabled_gate() {
                Some(refusal) => Decision::Reply(refusal),
                None => Decision::Submit(HfpRequest::SimpleAtResponse(ok, addr)),
            },
    {
        if !self.is_enabled {
            Decision::Reply(HfpStatus::NotReady)
        } else {
            Decision::Submit(HfpRequest::SimpleAtResponse(ok, addr))
        }
    }

    /// Takes in the transport's answer to a request and says what the caller
    /// gets: the transport's integer as it came for a passthrough request,
    /// and for every other request the status that stands for it. Where the
    /// transport accepted the request, the step that the request asked for
    /// is taken, if the device's state still permits it.
    pub fn complete(&mut self, request: &HfpRequest, raw: u32) -> (answer: Answer)
        requires
            old(self).wf(),
        ensures
            final(self).wf(),
            final(self)@ == old(self)@.complete(*request, raw),
            answer == request.answer(raw),
    {
        if raw == RAW_SUCCESS {
            match request {
                HfpRequest::Connect(addr) => {
                    let link = self.link(addr);
                    if link.connection.can_step_to(&BthfConnectionState::Connecting) {
                        self.put(*addr, BthfConnectionState::Connecting, link.audio);
                    }
                },
                HfpRequest::Disconnect(addr) => {
                    let link = self.link(addr);
                    if link.connection.can_step_to(&BthfConnectionState::Disconnecting) {
                        proof {
                            crate::model::lemma_audio_needs_link(self@, *addr);
                        }
                        self.put(*addr, BthfConnectionState::Disconnecting, link.audio);
                    }
                },
                HfpRequest::ConnectAudio(addr, _, _) => {
                    let link = self.link(addr);
                    if link.audio.can_step_to(&BthfAudioState::Connecting, &link.connection) {
                        self.put(*addr, link.connection, BthfAudioState::Connecting);
                    }
                },
                HfpRequest::DisconnectAudio(addr) => {
                    let link = self.link(addr);
                    if link.audio.closable() {
                        proof {
                            crate::model::lemma_audio_needs_link(self@, *addr);
                        }
                        self.put(*addr, link.connection, BthfAudioState::Disconnecting);
                    }
                },
                HfpRequest::SetActiveDevice(addr) => {
                    self.active = Some(*addr);
                },
                _ => {},
            }
        }
        if request.is_passthrough() {
            Answer::Raw(raw)
        } else {
            Answer::Status(HfpStatus::from_raw(raw))
        }
    }

    /// Takes in an event and says what is to be done with it. A change of a
    /// link's state is recorded if the device's state permits the step, and
    /// refused if not; an event that arrives out of turn is refused like any
    /// other. Every other event passes.
    pub fn dispatch(&mut self, event: &HfpCallbacks) -> (action: EventAction)
        requires
            old(self).wf(),
        ensures
            final(self).wf(),
            final(self)@ == old(self)@.after_event(*event),
            action == old(self)@.action(*event),
    {
        let mut refused = false;
        match event {
            HfpCallbacks::ConnectionState(next, addr) => {
                let link = self.link(addr);
                if link.connection != *next {
                    if link.connection.can_step_to(next) {
                        proof {
                            crate::model::lemma_audio_needs_link(self@, *addr);
                        }
                        self.put(*addr, *next, link.audio);
                    } else {
                        refused = true;
                    }
                }
            },
            HfpCallbacks::AudioState(next, addr) => {
                let link = self.link(addr);
                if link.audio != *next {
                    if link.audio.can_step_to(next, &link.connection) {
                        proof {
                            crate::model::lemma_audio_needs_link(self@, *addr);
                        }
                        self.put(*addr, link.connection, *next);
                    } else {
                        refused = true;
                    }
                }
            },
            _ => {},
        }
        if refused {
            EventAction::Reject
        } else if self.is_init {
            EventAction::Deliver
        } else {
            EventAction::NoSubscriber
        }
    }
}

} // verus!
