use handsfree::state::{BthfAudioState, BthfConnectionState};
use handsfree::status::{HfpStatus, RAW_NOT_READY, RAW_SUCCESS};

const CONNECTION_STATES: [BthfConnectionState; 5] = [
    BthfConnectionState::Disconnected,
    BthfConnectionState::Connecting,
    BthfConnectionState::Connected,
    BthfConnectionState::SlcConnected,
    BthfConnectionState::Disconnecting,
];

const AUDIO_STATES: [BthfAudioState; 4] = [
    BthfAudioState::Disconnected,
    BthfAudioState::Connecting,
    BthfAudioState::Connected,
    BthfAudioState::Disconnecting,
];

#[test]
fn connection_state_numbers() {
    assert_eq!(BthfConnectionState::from(0), BthfConnectionState::Disconnected);
    assert_eq!(BthfConnectionState::from(1), BthfConnectionState::Connecting);
    assert_eq!(BthfConnectionState::from(2), BthfConnectionState::Connected);
    assert_eq!(BthfConnectionState::from(3), BthfConnectionState::SlcConnected);
    assert_eq!(BthfConnectionState::from(4), BthfConnectionState::Disconnecting);
    assert_eq!(BthfConnectionState::from_u32(5), None);
    assert_eq!(BthfConnectionState::from_u32(3), Some(BthfConnectionState::SlcConnected));
    assert_eq!(BthfConnectionState::Disconnecting.to_u32(), 4);
}

#[test]
fn audio_state_numbers() {
    assert_eq!(BthfAudioState::from(0), BthfAudioState::Disconnected);
    assert_eq!(BthfAudioState::from(1), BthfAudioState::Connecting);
    assert_eq!(BthfAudioState::from(2), BthfAudioState::Connected);
    assert_eq!(BthfAudioState::from(3), BthfAudioState::Disconnecting);
    assert_eq!(BthfAudioState::from_u32(4), None);
    assert_eq!(BthfAudioState::from_u32(2), Some(BthfAudioState::Connected));
}

#[test]
fn connection_steps() {
    let allowed = [
        (BthfConnectionState::Disconnected, BthfConnectionState::Connecting),
        (BthfConnectionState::Connecting, BthfConnectionState::Connected),
        (BthfConnectionState::Connected, BthfConnectionState::SlcConnected),
        (BthfConnectionState::Connecting, BthfConnectionState::Disconnecting),
        (BthfConnectionState::Connected, BthfConnectionState::Disconnecting),
        (BthfConnectionState::SlcConnected, BthfConnectionState::Disconnecting),
        (BthfConnectionState::Disconnecting, BthfConnectionState::Disconnected),
    ];
    for from in CONNECTION_STATES {
        for to in CONNECTION_STATES {
            assert_eq!(from.can_step_to(&to), allowed.contains(&(from, to)), "{:?} -> {:?}", from, to);
        }
    }
}

#[test]
fn signaling_link_up() {
    assert!(!BthfConnectionState::Disconnected.up());
    assert!(!BthfConnectionState::Connecting.up());
    assert!(BthfConnectionState::Connected.up());
    assert!(BthfConnectionState::SlcConnected.up());
    assert!(!BthfConnectionState::Disconnecting.up());
}

#[test]
fn audio_steps() {
    let always = [
        (BthfAudioState::Connecting, BthfAudioState::Connected),
        (BthfAudioState::Connecting, BthfAudioState::Disconnecting),
        (BthfAudioState::Connected, BthfAudioState::Disconnecting),
        (BthfAudioState::Disconnecting, BthfAudioState::Disconnected),
    ];
    for link in CONNECTION_STATES {
        for from in AUDIO_STATES {
            for to in AUDIO_STATES {
                let expected = always.contains(&(from, to))
                    || (from == BthfAudioState::Disconnected
                        && to == BthfAudioState::Connecting
                        && link.up());
                assert_eq!(from.can_step_to(&to, &link), expected, "{:?} -> {:?} on {:?}", from, to, link);
            }
        }
    }
}

#[test]
fn audio_teardown_may_begin() {
    assert!(!BthfAudioState::Disconnected.closable());
    assert!(BthfAudioState::Connecting.closable());
    assert!(BthfAudioState::Connected.closable());
    assert!(!BthfAudioState::Disconnecting.closable());
}

#[test]
fn raw_codes_become_statuses() {
    assert_eq!(RAW_SUCCESS, 0);
    assert_eq!(RAW_NOT_READY, 2);
    assert_eq!(HfpStatus::from_raw(0), HfpStatus::Success);
    assert_eq!(HfpStatus::from_raw(2), HfpStatus::NotReady);
    assert_eq!(HfpStatus::from_raw(1), HfpStatus::TransportFailure(1));
    assert_eq!(HfpStatus::from_raw(7), HfpStatus::TransportFailure(7));
    assert_eq!(HfpStatus::from_raw(u32::MAX), HfpStatus::TransportFailure(u32::MAX));
    assert!(HfpStatus::Success.is_success());
    assert!(!HfpStatus::NotReady.is_success());
    assert!(!HfpStatus::TransportFailure(0).is_success());
}
