use spirc::error::SpircError;
use spirc::frame::{DeviceState, Frame, MessageType, PlayStatus, State, TrackRef};
use spirc::manager::{DeviceIdentity, Effect, SpircManager};
use spirc::player::{PlayerCommand, PlayerState};

fn device(ident: &str) -> SpircManager {
    SpircManager::new(
        DeviceIdentity {
            name: format!("{} speaker", ident),
            ident: ident.to_string(),
            device_type: 5,
            can_play: true,
            sw_version: "test-1".to_string(),
        },
        "alice".to_string(),
    )
}

fn idle_player() -> PlayerState {
    PlayerState { status: PlayStatus::Stop, position_ms: 0, position_measured_at: 0, update_time: 0 }
}

fn peer_state(is_active: bool) -> DeviceState {
    DeviceState {
        sw_version: "peer-1".to_string(),
        is_active,
        can_play: true,
        volume: 100,
        name: "peer".to_string(),
        error_code: 0,
        became_active_at: if is_active { 42 } else { 0 },
        capabilities: vec![],
    }
}

fn peer_frame(ident: &str, seq_nr: u32, typ: MessageType, recipient: &[&str]) -> Frame {
    Frame {
        version: 1,
        ident: ident.to_string(),
        protocol_version: "2.0.0".to_string(),
        seq_nr,
        typ,
        device_state: peer_state(false),
        state: None,
        position: None,
        recipient: recipient.iter().map(|r| r.to_string()).collect(),
        state_update_id: 0,
    }
}

fn one_track(gid: &[u8], status: PlayStatus, position_ms: u32) -> State {
    State {
        status,
        position_ms,
        position_measured_at: 0,
        playing_track_index: 0,
        track: vec![TrackRef { gid: gid.to_vec() }],
        shuffle: false,
        repeat: false,
        playing_from_fallback: false,
        last_command_ident: String::new(),
        last_command_msgid: 0,
    }
}

#[test]
fn load_then_play() {
    let mut dev = device("self");
    let gid = [7u8; 16];

    let mut load = peer_frame("B", 31, MessageType::Load, &["self"]);
    load.state = Some(one_track(&gid, PlayStatus::Play, 5000));
    let effect = dev.handle(&load, &idle_player(), 1_000);

    assert_eq!(
        effect,
        Ok(Effect::Command(PlayerCommand::Load(TrackRef { gid: gid.to_vec() }, true, 5000)))
    );
    assert!(dev.control.is_active);
    assert_eq!(dev.control.became_active_at, 1_000);
    assert_eq!(dev.control.track, Some(TrackRef { gid: gid.to_vec() }));
    assert_eq!(dev.control.last_command_ident, "B");
    assert_eq!(dev.control.last_command_msgid, 31);

    let play = peer_frame("B", 32, MessageType::Play, &[]);
    let effect = dev.handle(&play, &idle_player(), 2_000);

    assert_eq!(effect, Ok(Effect::Command(PlayerCommand::Play)));
    assert_eq!(dev.control.last_command_ident, "B");
    assert_eq!(dev.control.last_command_msgid, 31);
    assert!(dev.control.is_active);
    assert_eq!(dev.control.became_active_at, 1_000);
}

#[test]
fn hello_triggers_directed_reply() {
    let mut dev = device("self");
    let hello = peer_frame("C", 1, MessageType::Hello, &[]);

    let effect = dev.handle(&hello, &idle_player(), 10);

    match effect {
        Ok(Effect::Announce(reply)) => {
            assert_eq!(reply.recipient, vec!["C".to_string()]);
            assert_eq!(reply.ident, "self");
            assert_eq!(reply.typ, MessageType::Notify);
            assert_eq!(reply.seq_nr, 1);
            assert_eq!(reply.state, None);
        }
        other => panic!("expected one announcement, got {:?}", other),
    }
    assert_eq!(dev.control.seq_nr, 1);
    // The Hello was a broadcast: it is no command.
    assert_eq!(dev.control.last_command_ident, "");
    assert_eq!(dev.control.last_command_msgid, 0);
}

#[test]
fn inactive_device_ignores_notify_conflict() {
    let mut dev = device("self");
    let before = dev.clone();
    let mut notify = peer_frame("B", 9, MessageType::Notify, &[]);
    notify.device_state = peer_state(true);

    let effect = dev.handle(&notify, &idle_player(), 10);

    assert_eq!(effect, Ok(Effect::Nothing));
    assert_eq!(dev, before);
}

#[test]
fn active_device_steps_down_on_notify_conflict() {
    let mut dev = device("self");
    let mut load = peer_frame("B", 1, MessageType::Load, &["self"]);
    load.state = Some(one_track(&[1, 2, 3], PlayStatus::Pause, 0));
    assert!(dev.handle(&load, &idle_player(), 500).is_ok());
    assert!(dev.control.is_active);
    let before = dev.clone();

    let mut notify = peer_frame("B", 2, MessageType::Notify, &[]);
    notify.device_state = peer_state(true);
    let effect = dev.handle(&notify, &idle_player(), 600);

    assert_eq!(effect, Ok(Effect::Command(PlayerCommand::Stop)));
    assert!(!dev.control.is_active);
    // Nothing but the activity flag has changed.
    let mut expected = before;
    expected.control.is_active = false;
    assert_eq!(dev, expected);

    // The same frame again finds the device inactive and does nothing.
    let again = dev.clone();
    assert_eq!(dev.handle(&notify, &idle_player(), 700), Ok(Effect::Nothing));
    assert_eq!(dev, again);
}

#[test]
fn active_device_keeps_playing_when_peer_is_inactive() {
    let mut dev = device("self");
    let mut load = peer_frame("B", 1, MessageType::Load, &["self"]);
    load.state = Some(one_track(&[1], PlayStatus::Play, 0));
    assert!(dev.handle(&load, &idle_player(), 500).is_ok());
    let before = dev.clone();

    let notify = peer_frame("B", 2, MessageType::Notify, &[]);
    assert_eq!(dev.handle(&notify, &idle_player(), 600), Ok(Effect::Nothing));
    assert_eq!(dev, before);
}

#[test]
fn hand_off_between_two_devices() {
    let mut a = device("A");
    let mut b = device("B");
    let player = idle_player();
    let mut load = peer_frame("phone", 1, MessageType::Load, &["A"]);
    load.state = Some(one_track(&[1], PlayStatus::Play, 0));
    assert!(a.handle(&load, &player, 100).is_ok());
    let mut load = peer_frame("phone", 2, MessageType::Load, &["B"]);
    load.state = Some(one_track(&[2], PlayStatus::Play, 0));
    assert!(b.handle(&load, &player, 200).is_ok());
    assert!(a.control.is_active && b.control.is_active);

    let announcement = b.notify(None, &player).unwrap();
    assert!(announcement.device_state.is_active);
    let effect = a.handle(&announcement, &player, 300);

    assert_eq!(effect, Ok(Effect::Command(PlayerCommand::Stop)));
    assert!(!a.control.is_active);
    assert!(b.control.is_active);
}

#[test]
fn load_with_index_out_of_range_is_rejected() {
    let mut dev = device("self");
    let mut load = peer_frame("B", 4, MessageType::Load, &["self"]);
    let mut state = one_track(&[1], PlayStatus::Play, 0);
    state.playing_track_index = 1;
    load.state = Some(state);

    let effect = dev.handle(&load, &idle_player(), 10);

    assert_eq!(effect, Err(SpircError::TrackIndexOutOfRange));
    assert!(!dev.control.is_active);
    assert_eq!(dev.control.became_active_at, 0);
    assert_eq!(dev.control.track, None);
    // The frame was directed, so it still counts as the last command.
    assert_eq!(dev.control.last_command_ident, "B");
    assert_eq!(dev.control.last_command_msgid, 4);
}

#[test]
fn load_without_transport_state_is_rejected() {
    let mut dev = device("self");
    let before = dev.clone();
    let load = peer_frame("B", 4, MessageType::Load, &[]);

    assert_eq!(dev.handle(&load, &idle_player(), 10), Err(SpircError::TrackIndexOutOfRange));
    assert_eq!(dev, before);
}

#[test]
fn load_picks_the_track_at_the_announced_index() {
    let mut dev = device("self");
    let mut load = peer_frame("B", 4, MessageType::Load, &[]);
    let mut state = one_track(&[1], PlayStatus::Pause, 250);
    state.track.push(TrackRef { gid: vec![2, 2] });
    state.track.push(TrackRef { gid: vec![3, 3, 3] });
    state.playing_track_index = 2;
    load.state = Some(state);

    let effect = dev.handle(&load, &idle_player(), 10);

    assert_eq!(
        effect,
        Ok(Effect::Command(PlayerCommand::Load(TrackRef { gid: vec![3, 3, 3] }, false, 250)))
    );
    assert_eq!(dev.control.track, Some(TrackRef { gid: vec![3, 3, 3] }));
}

#[test]
fn second_load_keeps_the_time_of_becoming_active() {
    let mut dev = device("self");
    let mut load = peer_frame("B", 1, MessageType::Load, &[]);
    load.state = Some(one_track(&[1], PlayStatus::Play, 0));
    assert!(dev.handle(&load, &idle_player(), 100).is_ok());
    load.state = Some(one_track(&[2], PlayStatus::Play, 0));
    assert!(dev.handle(&load, &idle_player(), 900).is_ok());

    assert_eq!(dev.control.became_active_at, 100);
    assert_eq!(dev.control.track, Some(TrackRef { gid: vec![2] }));
}
