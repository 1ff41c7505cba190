//! The call and indicator model: the values that answer a peer's queries.

use vstd::prelude::*;

verus! {

/// Highest signal strength that can be reported.
pub const MAX_SIGNAL_STRENGTH: i32 = 5;

/// Highest battery level that can be reported.
pub const MAX_BATTERY_LEVEL: i32 = 5;

/// Status of the local device as reported to a peer. The signal strength and
/// the battery level are on bounded scales; a value of this type always lies
/// within them.
#[derive(Clone, Copy, Debug, PartialEq, Eq)]
pub struct TelephonyDeviceStatus {
    network_available: bool,
    roaming: bool,
    signal_strength: i32,
    battery_level: i32,
}

impl TelephonyDeviceStatus {
    /// Whether a signal strength and a battery level lie on their scales.
    pub open spec fn in_range(signal_strength: i32, battery_level: i32) -> bool {
        0 <= signal_strength <= MAX_SIGNAL_STRENGTH && 0 <= battery_level <= MAX_BATTERY_LEVEL
    }

    #[verifier::type_invariant]
    spec fn bounded(self) -> bool {
        Self::in_range(self.signal_strength, self.battery_level)
    }

    /// Whether this is the status that is reported until the host says
    /// otherwise: a network is available, no roaming, full signal, full
    /// battery.
    pub open spec fn is_default(self) -> bool {
        &&& self.spec_network_available()
        &&& !self.spec_roaming()
        &&& self.spec_signal_strength() == MAX_SIGNAL_STRENGTH
        &&& self.spec_battery_level() == MAX_BATTERY_LEVEL
    }

    /// Whether a network is available.
    pub closed spec fn spec_network_available(self) -> bool {
        self.network_available
    }

    /// Whether the device is roaming.
    pub closed spec fn spec_roaming(self) -> bool {
        self.roaming
    }

    /// The signal strength.
    pub closed spec fn spec_signal_strength(self) -> i32 {
        self.signal_strength
    }

    /// The battery level.
    pub closed spec fn spec_battery_level(self) -> i32 {
        self.battery_level
    }

    /// The status that is reported until the host says otherwise.
    pub fn new() -> (status: TelephonyDeviceStatus)
        ensures
            status.is_default(),
    {
        TelephonyDeviceStatus {
            network_available: true,
            roaming: false,
            signal_strength: MAX_SIGNAL_STRENGTH,
            battery_level: MAX_BATTERY_LEVEL,
        }
    }

    /// A status with the given values, unless the signal strength or the
    /// battery level lies outside its scale.
    pub fn checked(
        network_available: bool,
        roaming: bool,
        signal_strength: i32,
        battery_level: i32,
    ) -> (status: Option<TelephonyDeviceStatus>)
        ensures
            Self::in_range(signal_strength, battery_level) <==> status is Some,
            status matches Some(s) ==> {
                &&& s.spec_network_available() == network_available
                &&& s.spec_roaming() == roaming
                &&& s.spec_signal_strength() == signal_strength
                &&& s.spec_battery_level() == battery_level
            },
    {
        if 0 <= signal_strength && signal_strength <= MAX_SIGNAL_STRENGTH && 0 <= battery_level
            && battery_level <= MAX_BATTERY_LEVEL {
            Some(TelephonyDeviceStatus { network_available, roaming, signal_strength, battery_level })
        } else {
            None
        }
    }

    /// Whether a network is available.
    pub fn network_available(&self) -> (available: bool)
        ensures
            available == self.spec_network_available(),
    {
        self.network_available
    }

    /// Whether the device is roaming.
    pub fn roaming(&self) -> (roaming: bool)
        ensures
            roaming == self.spec_roaming(),
    {
        self.roaming
    }

    /// The signal strength, which lies on its scale.
    pub fn signal_strength(&self) -> (level: i32)
        ensures
            level == self.spec_signal_strength(),
            0 <= level <= MAX_SIGNAL_STRENGTH,
    {
        proof {
            use_type_invariant(self);
        }
        self.signal_strength
    }

    /// The battery level, which lies on its scale.
    pub fn battery_level(&self) -> (level: i32)
        ensures
            level == self.spec_battery_level(),
            0 <= level <= MAX_BATTERY_LEVEL,
    {
        proof {
            use_type_invariant(self);
        }
        self.battery_level
    }
}

/// State of one call, or of the phone as a whole.
#[derive(Clone, Copy, Debug, PartialEq, Eq, Structural)]
pub enum CallState {
    Idle,
    Incoming,
    Dialing,
    Alerting,
    /// Only in an entry of a call list.
    Active,
    /// Only in an entry of a call list.
    Held,
}

/// One entry of the call list.
#[derive(Debug, PartialEq, Eq)]
pub struct CallInfo {
    /// The handle by which the peer knows the call.
    pub index: i32,
    /// Whether the call came in; else it went out.
    pub dir_incoming: bool,
    pub state: CallState,
    /// The other party's number; empty where it is withheld.
    pub number: String,
}

impl Clone for CallInfo {
    fn clone(&self) -> (copy: CallInfo)
        ensures
            copy == *self,
    {
        CallInfo {
            index: self.index,
            dir_incoming: self.dir_incoming,
            state: self.state,
            number: self.number.clone(),
        }
    }
}

/// Summary of the phone's calls.
#[derive(Clone, Copy, Debug, PartialEq, Eq, Structural)]
pub struct PhoneState {
    pub num_active: i32,
    pub num_held: i32,
    pub state: CallState,
}

/// What a peer asks to be done with held and active calls.
#[derive(Clone, Copy, Debug, PartialEq, Eq, Structural)]
pub enum CallHoldCommand {
    ReleaseHeld,
    ReleaseActiveAcceptHeld,
    HoldActiveAcceptHeld,
    /// Accepted and passed on to the subscriber, but nothing here acts on it.
    AddHeldToConf,
}

/// Whether no two entries of a call list share an index.
pub open spec fn unique_indices(calls: Seq<CallInfo>) -> bool {
    forall|i: int, j: int| 0 <= i < j < calls.len() ==> calls[i].index != calls[j].index
}

/// How many entries of a call list are in a given state.
pub open spec fn count_in_state(calls: Seq<CallInfo>, state: CallState) -> nat
    decreases calls.len(),
{
    if calls.len() == 0 {
        0
    } else {
        count_in_state(calls.drop_last(), state) + if calls.last().state == state {
            1nat
        } else {
            0nat
        }
    }
}

/// Whether a summary agrees with a call list: it counts as active the entries
/// that are active, and as held those that are held.
pub open spec fn consistent(phone_state: PhoneState, calls: Seq<CallInfo>) -> bool {
    &&& phone_state.num_active == count_in_state(calls, CallState::Active)
    &&& phone_state.num_held == count_in_state(calls, CallState::Held)
}

/// Whether no two entries of a call list share an index.
pub fn has_unique_indices(calls: &Vec<CallInfo>) -> (unique: bool)
    ensures
        unique == unique_indices(calls@),
{
    let n: usize = calls.len();
    let mut j: usize = 0;
    while j < n
        invariant
            n == calls.len(),
            j <= n,
            forall|a: int, b: int| 0 <= a < b < j ==> calls[a].index != calls[b].index,
        decreases n - j,
    {
        let mut i: usize = 0;
        while i < j
            invariant
                n == calls.len(),
                i <= j < n,
                forall|a: int| 0 <= a < i ==> calls[a].index != calls[j as int].index,
            decreases j - i,
        {
            if calls[i].index == calls[j].index {
                return false;
            }
            i += 1;
        }
        j += 1;
    }
    true
}

/// How many entries of a call list are in a given state.
pub fn count_calls(calls: &Vec<CallInfo>, state: CallState) -> (count: usize)
    ensures
        count == count_in_state(calls@, state),
{
    let n: usize = calls.len();
    let mut count: usize = 0;
    let mut i: usize = 0;
    while i < n
        invariant
            n == calls.len(),
            i <= n,
            count <= i,
            count == count_in_state(calls@.take(i as int), state),
        decreases n - i,
    {
        proof {
            assert(calls@.take(i + 1).drop_last() =~= calls@.take(i as int));
        }
        if calls[i].state == state {
            count += 1;
        }
        i += 1;
    }
    proof {
        assert(calls@.take(n as int) =~= calls@);
    }
    count
}

impl PhoneState {
    /// Whether this summary agrees with a call list.
    pub fn is_consistent_with(&self, calls: &Vec<CallInfo>) -> (agrees: bool)
        ensures
            agrees == consistent(*self, calls@),
    {
        let active: usize = count_calls(calls, CallState::Active);
        let held: usize = count_calls(calls, CallState::Held);
        self.num_active >= 0 && self.num_held >= 0 && self.num_active as usize == active
            && self.num_held as usize == held
    }
}

/// A copy of a call list: the same entries in the same order.
pub fn copy_calls(calls: &Vec<CallInfo>) -> (copy: Vec<CallInfo>)
    ensures
        copy@ == calls@,
{
    let n: usize = calls.len();
    let mut copy: Vec<CallInfo> = Vec::new();
    let mut i: usize = 0;
    while i < n
        invariant
            n == calls.len(),
            i <= n,
            copy@ == calls@.take(i as int),
        decreases n - i,
    {
        copy.push(calls[i].clone());
        proof {
            assert(copy@ =~= calls@.take(i + 1));
        }
        i += 1;
    }
    proof {
        assert(calls@.take(n as int) =~= calls@);
    }
    copy
}

} // verus!
