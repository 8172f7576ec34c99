//! The state machine as mathematics.
//!
//! `ManagerView` is what a device knows; its spec functions say how each
//! input changes it and what comes out. The executable `SpircManager` is
//! proved to follow these functions step for step, so what is shown of them
//! holds of the running device.

use vstd::prelude::*;
use crate::error::SpircError;
use crate::frame::{
    CapabilityType, CapabilityView, DeviceStateView, FrameView, MessageType, PlayStatus, StateView,
};
use crate::player::{PlayerCommandView, PlayerState};

verus! {

/// What a device is: fixed when it starts, never changed by a frame.
#[verifier::ext_equal]
pub struct IdentityView {
    pub name: Seq<char>,
    pub ident: Seq<char>,
    pub device_type: u8,
    pub can_play: bool,
    pub sw_version: Seq<char>,
}

/// What a device keeps track of while it runs.
#[verifier::ext_equal]
pub struct ControlView {
    pub is_active: bool,
    pub became_active_at: i64,
    pub repeat: bool,
    pub shuffle: bool,
    pub volume: u16,
    pub track: Option<Seq<u8>>,
    pub seq_nr: u32,
    pub state_update_id: i64,
    pub last_command_ident: Seq<char>,
    pub last_command_msgid: u32,
}

/// A device on the control channel of one user: what it is, whose channel
/// it is on, and what it keeps track of.
#[verifier::ext_equal]
pub struct ManagerView {
    pub identity: IdentityView,
    pub username: Seq<char>,
    pub control: ControlView,
}

/// What handling one frame asks the caller to do.
#[verifier::ext_equal]
pub enum EffectView {
    Nothing,
    Command(PlayerCommandView),
    Announce(FrameView),
}

/// What can happen to a device.
pub enum Input {
    /// A frame arrived.
    Inbound { frame: FrameView, player: PlayerState, now: i64 },
    /// The player was looked at.
    Observed { player: PlayerState, now: i64 },
    /// An announcement was asked for.
    Announce { recipient: Option<Seq<char>>, player: PlayerState },
}

/// The version that every frame carries.
pub const FRAME_VERSION: u32 = 1;

/// The number of volume steps that a device advertises.
pub const VOLUME_STEPS: i64 = 10;

/// The protocol version that every frame carries.
pub open spec fn protocol_version() -> Seq<char> {
    "2.0.0"@
}

/// A capability with a single integer value.
pub open spec fn int_capability(typ: CapabilityType, value: i64) -> CapabilityView {
    CapabilityView { typ, int_value: seq![value], string_value: Seq::empty() }
}

/// A capability with string values.
pub open spec fn string_capability(typ: CapabilityType, values: Seq<Seq<char>>) -> CapabilityView {
    CapabilityView { typ, int_value: Seq::empty(), string_value: values }
}

/// The kinds of context that a device can play from.
pub open spec fn supported_contexts() -> Seq<Seq<char>> {
    seq![
        "album"@,
        "playlist"@,
        "search"@,
        "inbox"@,
        "toplist"@,
        "starred"@,
        "publishedstarred"@,
        "track"@,
    ]
}

/// The kinds of content that a device can play.
pub open spec fn supported_types() -> Seq<Seq<char>> {
    seq!["audio/local"@, "audio/track"@, "local"@, "track"@]
}

/// The capabilities that every announcement advertises. Only the device type
/// varies from one device to another.
pub open spec fn advertised_capabilities(device_type: u8) -> Seq<CapabilityView> {
    seq![
        int_capability(CapabilityType::CanBePlayer, 0),
        int_capability(CapabilityType::DeviceType, device_type as i64),
        int_capability(CapabilityType::GaiaEqConnectId, 1),
        int_capability(CapabilityType::SupportsLogout, 0),
        int_capability(CapabilityType::IsObservable, 1),
        int_capability(CapabilityType::VolumeSteps, VOLUME_STEPS),
        string_capability(CapabilityType::SupportedContexts, supported_contexts()),
        string_capability(CapabilityType::SupportedTypes, supported_types()),
    ]
}

/// The recipient list of an announcement: the one device addressed, or
/// nobody in particular.
pub open spec fn recipients(recipient: Option<Seq<char>>) -> Seq<Seq<char>> {
    match recipient {
        Some(r) => seq![r],
        None => Seq::empty(),
    }
}

/// The track that a Load frame asks for: the entry of its track list at the
/// announced index, if the frame has transport state and the list is that
/// long.
pub open spec fn load_target(frame: FrameView) -> Option<Seq<u8>> {
    match frame.state {
        Some(s) => if (s.playing_track_index as int) < s.track.len() {
            Some(s.track[s.playing_track_index as int])
        } else {
            None
        },
        None => None,
    }
}

/// The position that a Seek frame asks for; the start of the track where the
/// frame gives none.
pub open spec fn seek_target(frame: FrameView) -> u32 {
    match frame.position {
        Some(position_ms) => position_ms,
        None => 0,
    }
}

impl ControlView {
    /// The state in which every device starts.
    pub open spec fn initial() -> ControlView {
        ControlView {
            is_active: false,
            became_active_at: 0,
            repeat: false,
            shuffle: false,
            volume: 0x8000,
            track: None,
            seq_nr: 0,
            state_update_id: 0,
            last_command_ident: Seq::empty(),
            last_command_msgid: 0,
        }
    }
}

impl ManagerView {
    /// The topic on which a user's devices hear each other.
    pub open spec fn subscription_uri(self) -> Seq<char> {
        "hm://remote/user/"@ + self.username + "/v23"@
    }

    /// The topic to which a device sends its frames.
    pub open spec fn send_uri(self) -> Seq<char> {
        "hm://remote/user/"@ + self.username
    }

    /// The visibility rule: a frame counts if somebody else sent it, to
    /// everyone or to a list that names this device.
    pub open spec fn accepts(self, frame: FrameView) -> bool {
        &&& frame.ident != self.identity.ident
        &&& (frame.recipient.len() == 0 || frame.recipient.contains(self.identity.ident))
    }

    /// How this device describes itself. The time of becoming active is
    /// reported only while the device is active.
    pub open spec fn device_state(self) -> DeviceStateView {
        DeviceStateView {
            sw_version: self.identity.sw_version,
            is_active: self.control.is_active,
            can_play: self.identity.can_play,
            volume: self.control.volume as u32,
            name: self.identity.name,
            error_code: 0,
            became_active_at: if self.control.is_active {
                self.control.became_active_at
            } else {
                0
            },
            capabilities: advertised_capabilities(self.identity.device_type),
        }
    }

    /// How this device describes its playback, given what the player reports.
    /// There is nothing to describe before a track has been loaded.
    pub open spec fn state(self, player: PlayerState) -> Result<StateView, SpircError> {
        match self.control.track {
            Some(gid) => Ok(
                StateView {
                    status: player.status,
                    position_ms: player.position_ms,
                    position_measured_at: player.position_measured_at,
                    playing_track_index: 0,
                    track: seq![gid],
                    shuffle: self.control.shuffle,
                    repeat: self.control.repeat,
                    playing_from_fallback: true,
                    last_command_ident: self.control.last_command_ident,
                    last_command_msgid: self.control.last_command_msgid,
                },
            ),
            None => Err(SpircError::NoCurrentTrack),
        }
    }

    /// The playback part of an announcement: present if the device is active
    /// and has a track to speak of.
    pub open spec fn announced_state(self, player: PlayerState) -> Option<StateView> {
        if self.control.is_active {
            match self.state(player) {
                Ok(s) => Some(s),
                Err(_) => None,
            }
        } else {
            None
        }
    }

    /// The announcement that carries the current sequence number.
    pub open spec fn announcement(
        self,
        recipient: Option<Seq<char>>,
        player: PlayerState,
    ) -> FrameView {
        FrameView {
            version: FRAME_VERSION,
            ident: self.identity.ident,
            protocol_version: protocol_version(),
            seq_nr: self.control.seq_nr,
            typ: MessageType::Notify,
            device_state: self.device_state(),
            state: self.announced_state(player),
            position: None,
            recipient: recipients(recipient),
            state_update_id: self.control.state_update_id,
        }
    }

    /// This device with its sequence counter set.
    pub open spec fn with_seq_nr(self, seq_nr: u32) -> ManagerView {
        ManagerView { control: ControlView { seq_nr, ..self.control }, ..self }
    }

    /// Announcing takes the next sequence number and builds the frame that
    /// carries it. Once the counter is at its largest value nothing more is
    /// announced, and nothing changes.
    pub open spec fn notify(self, recipient: Option<Seq<char>>, player: PlayerState) -> (
        ManagerView,
        Result<FrameView, SpircError>,
    ) {
        if self.control.seq_nr < u32::MAX {
            let next = self.with_seq_nr((self.control.seq_nr + 1) as u32);
            (next, Ok(next.announcement(recipient, player)))
        } else {
            (self, Err(SpircError::SequenceExhausted))
        }
    }

    /// A directed frame leaves its sender and sequence number behind as the
    /// last command; a broadcast leaves no trace.
    pub open spec fn record_provenance(self, frame: FrameView) -> ManagerView {
        if frame.is_directed() {
            ManagerView {
                control: ControlView {
                    last_command_ident: frame.ident,
                    last_command_msgid: frame.seq_nr,
                    ..self.control
                },
                ..self
            }
        } else {
            self
        }
    }

    /// Taking over playback of a track. The time of becoming active is
    /// stamped only if the device was not active already.
    pub open spec fn load(self, gid: Seq<u8>, now: i64) -> ManagerView {
        ManagerView {
            control: ControlView {
                is_active: true,
                became_active_at: if self.control.is_active {
                    self.control.became_active_at
                } else {
                    now
                },
                track: Some(gid),
                ..self.control
            },
            ..self
        }
    }

    /// Stepping down in favour of another device.
    pub open spec fn deactivated(self) -> ManagerView {
        ManagerView { control: ControlView { is_active: false, ..self.control }, ..self }
    }

    /// What a frame that passed the visibility rule does, by its type.
    pub open spec fn apply(self, frame: FrameView, player: PlayerState, now: i64) -> (
        ManagerView,
        Result<EffectView, SpircError>,
    ) {
        let m = self.record_provenance(frame);
        match frame.typ {
            MessageType::Hello => {
                let (next, reply) = m.notify(Some(frame.ident), player);
                (
                    next,
                    match reply {
                        Ok(f) => Ok(EffectView::Announce(f)),
                        Err(e) => Err(e),
                    },
                )
            },
            MessageType::Load => match load_target(frame) {
                Some(gid) => (
                    m.load(gid, now),
                    Ok(
                        EffectView::Command(
                            PlayerCommandView::Load(
                                gid,
                                frame.state->0.status == PlayStatus::Play,
                                frame.state->0.position_ms,
                            ),
                        ),
                    ),
                ),
                None => (m, Err(SpircError::TrackIndexOutOfRange)),
            },
            MessageType::Play => (m, Ok(EffectView::Command(PlayerCommandView::Play))),
            MessageType::Pause => (m, Ok(EffectView::Command(PlayerCommandView::Pause))),
            MessageType::Seek => (
                m,
                Ok(EffectView::Command(PlayerCommandView::Seek(seek_target(frame)))),
            ),
            MessageType::Notify => if m.control.is_active && frame.device_state.is_active {
                (m.deactivated(), Ok(EffectView::Command(PlayerCommandView::Stop)))
            } else {
                (m, Ok(EffectView::Nothing))
            },
            MessageType::Other => (m, Ok(EffectView::Nothing)),
        }
    }

    /// What an inbound frame does: nothing at all unless it passes the
    /// visibility rule, and then what its type says.
    pub open spec fn handle(self, frame: FrameView, player: PlayerState, now: i64) -> (
        ManagerView,
        Result<EffectView, SpircError>,
    ) {
        if self.accepts(frame) {
            self.apply(frame, player, now)
        } else {
            (self, Ok(EffectView::Nothing))
        }
    }

    /// This device with its freshness marker set.
    pub open spec fn with_state_update_id(self, state_update_id: i64) -> ManagerView {
        ManagerView { control: ControlView { state_update_id, ..self.control }, ..self }
    }

    /// Looking at the player: if it has changed since the last announcement,
    /// the freshness marker is stamped with the current time and the new
    /// state is announced to everyone.
    pub open spec fn observe(self, player: PlayerState, now: i64) -> (
        ManagerView,
        Result<Option<FrameView>, SpircError>,
    ) {
        if player.update_time > self.control.state_update_id {
            let (next, announced) = self.with_state_update_id(now).notify(None, player);
            (
                next,
                match announced {
                    Ok(f) => Ok(Some(f)),
                    Err(e) => Err(e),
                },
            )
        } else {
            (self, Ok(None))
        }
    }

    /// An active device has a current track. This holds of a device that has
    /// just started and of every state it can reach from there.
    pub open spec fn has_track_while_active(self) -> bool {
        self.control.is_active ==> self.control.track is Some
    }

    /// One step of a device's life: the state after an input, and the frame
    /// that goes out because of it, if any.
    pub open spec fn step(self, input: Input) -> (ManagerView, Option<FrameView>) {
        match input {
            Input::Inbound { frame, player, now } => {
                let (next, outcome) = self.handle(frame, player, now);
                (
                    next,
                    match outcome {
                        Ok(EffectView::Announce(f)) => Some(f),
                        _ => None,
                    },
                )
            },
            Input::Observed { player, now } => {
                let (next, outcome) = self.observe(player, now);
                (
                    next,
                    match outcome {
                        Ok(Some(f)) => Some(f),
                        _ => None,
                    },
                )
            },
            Input::Announce { recipient, player } => {
                let (next, outcome) = self.notify(recipient, player);
                (
                    next,
                    match outcome {
                        Ok(f) => Some(f),
                        Err(_) => None,
                    },
                )
            },
        }
    }

    /// The state after a run of inputs.
    pub open spec fn after(self, inputs: Seq<Input>) -> ManagerView
        decreases inputs.len(),
    {
        if inputs.len() == 0 {
            self
        } else {
            self.step(inputs[0]).0.after(inputs.drop_first())
        }
    }

    /// The frames that go out over a run of inputs, in the order in which
    /// they go out.
    pub open spec fn sent(self, inputs: Seq<Input>) -> Seq<FrameView>
        decreases inputs.len(),
    {
        if inputs.len() == 0 {
            Seq::empty()
        } else {
            let (next, out) = self.step(inputs[0]);
            let rest = next.sent(inputs.drop_first());
            match out {
                Some(f) => seq![f] + rest,
                None => rest,
            }
        }
    }
}

} // verus!
