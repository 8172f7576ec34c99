use spirc::frame::{DeviceState, Frame, MessageType, PlayStatus, State, TrackRef};
use spirc::manager::{DeviceIdentity, Effect, SpircManager};
use spirc::player::{PlayerCommand, PlayerState};

fn manager() -> SpircManager {
    SpircManager::new(
        DeviceIdentity {
            name: "kitchen".to_string(),
            ident: "self".to_string(),
            device_type: 5,
            can_play: true,
            sw_version: "test-1".to_string(),
        },
        "alice".to_string(),
    )
}

fn snapshot() -> PlayerState {
    PlayerState {
        status: PlayStatus::Pause,
        position_ms: 1,
        position_measured_at: 2,
        update_time: 0,
    }
}

fn frame_from(ident: &str, typ: MessageType, recipient: &[&str]) -> Frame {
    Frame {
        version: 1,
        ident: ident.to_string(),
        protocol_version: "2.0.0".to_string(),
        seq_nr: 77,
        typ,
        device_state: DeviceState {
            sw_version: String::new(),
            is_active: true,
            can_play: true,
            volume: 0,
            name: String::new(),
            error_code: 0,
            became_active_at: 0,
            capabilities: vec![],
        },
        state: Some(State {
            status: PlayStatus::Play,
            position_ms: 10,
            position_measured_at: 0,
            playing_track_index: 0,
            track: vec![TrackRef { gid: vec![9; 16] }],
            shuffle: false,
            repeat: false,
            playing_from_fallback: false,
            last_command_ident: String::new(),
            last_command_msgid: 0,
        }),
        position: Some(1234),
        recipient: recipient.iter().map(|r| r.to_string()).collect(),
        state_update_id: 0,
    }
}

fn all_types() -> Vec<MessageType> {
    vec![
        MessageType::Hello,
        MessageType::Load,
        MessageType::Play,
        MessageType::Pause,
        MessageType::Seek,
        MessageType::Notify,
        MessageType::Other,
    ]
}

fn active_manager() -> SpircManager {
    let mut m = manager();
    m.control.is_active = true;
    m.control.became_active_at = 50;
    m.control.track = Some(TrackRef { gid: vec![4; 16] });
    m
}

#[test]
fn own_frames_are_ignored_whatever_their_type_or_recipient() {
    for start in [manager(), active_manager()] {
        for typ in all_types() {
            for recipient in [&[][..], &["self"][..], &["other"][..], &["other", "self"][..]] {
                let mut m = start.clone();
                let frame = frame_from("self", typ, recipient);
                assert!(!m.accepts(&frame));
                assert_eq!(m.handle(&frame, &snapshot(), 5), Ok(Effect::Nothing));
                assert_eq!(m, start);
            }
        }
    }
}

#[test]
fn frames_for_other_devices_are_ignored() {
    for start in [manager(), active_manager()] {
        for typ in all_types() {
            for recipient in [&["other"][..], &["a", "b", "selfish"][..], &[""][..]] {
                let mut m = start.clone();
                let frame = frame_from("B", typ, recipient);
                assert!(!m.accepts(&frame));
                assert_eq!(m.handle(&frame, &snapshot(), 5), Ok(Effect::Nothing));
                assert_eq!(m, start);
            }
        }
    }
}

#[test]
fn broadcasts_and_frames_that_name_the_device_are_accepted() {
    let m = manager();
    assert!(m.accepts(&frame_from("B", MessageType::Play, &[])));
    assert!(m.accepts(&frame_from("B", MessageType::Play, &["self"])));
    assert!(m.accepts(&frame_from("B", MessageType::Play, &["x", "self", "y"])));
    assert!(m.accepts(&frame_from("", MessageType::Play, &[])));
}

#[test]
fn directed_frames_are_recorded_as_last_command_whatever_their_type() {
    for typ in all_types() {
        let mut m = manager();
        let frame = frame_from("B", typ, &["x", "self"]);
        let _ = m.handle(&frame, &snapshot(), 5);
        assert_eq!(m.control.last_command_ident, "B");
        assert_eq!(m.control.last_command_msgid, 77);
    }
}

#[test]
fn broadcast_frames_leave_the_last_command_alone() {
    for typ in all_types() {
        let mut m = manager();
        m.control.last_command_ident = "earlier".to_string();
        m.control.last_command_msgid = 3;
        let frame = frame_from("B", typ, &[]);
        let _ = m.handle(&frame, &snapshot(), 5);
        assert_eq!(m.control.last_command_ident, "earlier");
        assert_eq!(m.control.last_command_msgid, 3);
    }
}

#[test]
fn apply_records_a_directed_frame_without_asking_who_it_is_for() {
    let mut m = manager();
    let frame = frame_from("B", MessageType::Other, &["other"]);
    assert_eq!(m.apply(&frame, &snapshot(), 5), Ok(Effect::Nothing));
    assert_eq!(m.control.last_command_ident, "B");
    assert_eq!(m.control.last_command_msgid, 77);
}

#[test]
fn play_pause_and_seek_are_passed_to_the_player() {
    let mut m = manager();
    let before = m.clone();
    assert_eq!(
        m.handle(&frame_from("B", MessageType::Play, &[]), &snapshot(), 5),
        Ok(Effect::Command(PlayerCommand::Play))
    );
    assert_eq!(
        m.handle(&frame_from("B", MessageType::Pause, &[]), &snapshot(), 5),
        Ok(Effect::Command(PlayerCommand::Pause))
    );
    assert_eq!(
        m.handle(&frame_from("B", MessageType::Seek, &[]), &snapshot(), 5),
        Ok(Effect::Command(PlayerCommand::Seek(1234)))
    );
    assert_eq!(m, before);
}

#[test]
fn seek_without_a_position_goes_to_the_start() {
    let mut m = manager();
    let mut frame = frame_from("B", MessageType::Seek, &[]);
    frame.position = None;
    assert_eq!(
        m.handle(&frame, &snapshot(), 5),
        Ok(Effect::Command(PlayerCommand::Seek(0)))
    );
}

#[test]
fn unknown_types_have_no_effect() {
    for start in [manager(), active_manager()] {
        let mut m = start.clone();
        assert_eq!(
            m.handle(&frame_from("B", MessageType::Other, &[]), &snapshot(), 5),
            Ok(Effect::Nothing)
        );
        assert_eq!(m, start);
    }
}

#[test]
fn directed_notify_to_an_inactive_device_changes_the_last_command_only() {
    let mut m = manager();
    let frame = frame_from("B", MessageType::Notify, &["self"]);
    assert_eq!(m.handle(&frame, &snapshot(), 5), Ok(Effect::Nothing));
    let mut expected = manager();
    expected.control.last_command_ident = "B".to_string();
    expected.control.last_command_msgid = 77;
    assert_eq!(m, expected);
}

#[test]
fn load_of_a_paused_track_does_not_start_playing() {
    let mut m = manager();
    let mut frame = frame_from("B", MessageType::Load, &[]);
    frame.state.as_mut().unwrap().status = PlayStatus::Pause;
    assert_eq!(
        m.handle(&frame, &snapshot(), 5),
        Ok(Effect::Command(PlayerCommand::Load(TrackRef { gid: vec![9; 16] }, false, 10)))
    );
    frame.state.as_mut().unwrap().status = PlayStatus::Loading;
    assert_eq!(
        m.handle(&frame, &snapshot(), 5),
        Ok(Effect::Command(PlayerCommand::Load(TrackRef { gid: vec![9; 16] }, false, 10)))
    );
    frame.state.as_mut().unwrap().status = PlayStatus::Stop;
    assert_eq!(
        m.handle(&frame, &snapshot(), 5),
        Ok(Effect::Command(PlayerCommand::Load(TrackRef { gid: vec![9; 16] }, false, 10)))
    );
}

#[test]
fn handling_never_changes_the_identity() {
    for typ in all_types() {
        let mut m = manager();
        let _ = m.handle(&frame_from("B", typ, &["self"]), &snapshot(), 5);
        assert_eq!(m.identity, manager().identity);
        assert_eq!(m.username, "alice");
    }
}

#[test]
fn is_directed_tells_broadcast_from_addressed() {
    assert!(!frame_from("B", MessageType::Play, &[]).is_directed());
    assert!(frame_from("B", MessageType::Play, &["x"]).is_directed());
}
