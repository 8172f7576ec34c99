//! The control frame as plain values, and the mathematical view of each part.
//!
//! A frame travels as bytes; encoding and decoding are the codec's business.
//! What stands here is what the state machine reads from a decoded frame and
//! what it fills in before one is encoded.

use vstd::prelude::*;

verus! {

/// What a frame asks for. Types that this device does not act on are kept
/// apart as `Other`, so that a frame from a newer peer is still a frame.
#[derive(Clone, Copy, Debug, PartialEq, Eq, Structural)]
pub enum MessageType {
    Hello,
    Load,
    Play,
    Pause,
    Seek,
    Notify,
    Other,
}

/// What a player is doing.
#[derive(Clone, Copy, Debug, PartialEq, Eq, Structural)]
pub enum PlayStatus {
    Stop,
    Play,
    Pause,
    Loading,
}

/// The kinds of capability that a device advertises.
#[derive(Clone, Copy, Debug, PartialEq, Eq, Structural)]
pub enum CapabilityType {
    SupportedContexts,
    CanBePlayer,
    DeviceType,
    GaiaEqConnectId,
    SupportsLogout,
    IsObservable,
    VolumeSteps,
    SupportedTypes,
}

/// One advertised capability: a kind with integer or string values.
#[derive(Clone, Debug, PartialEq, Eq)]
pub struct Capability {
    pub typ: CapabilityType,
    pub int_value: Vec<i64>,
    pub string_value: Vec<String>,
}

#[verifier::ext_equal]
pub struct CapabilityView {
    pub typ: CapabilityType,
    pub int_value: Seq<i64>,
    pub string_value: Seq<Seq<char>>,
}

impl View for Capability {
    type V = CapabilityView;

    open spec fn view(&self) -> CapabilityView {
        CapabilityView {
            typ: self.typ,
            int_value: self.int_value@,
            string_value: self.string_value.deep_view(),
        }
    }
}

impl DeepView for Capability {
    type V = CapabilityView;

    open spec fn deep_view(&self) -> CapabilityView {
        self@
    }
}

/// The part of a frame in which a device describes itself.
#[derive(Clone, Debug, PartialEq, Eq)]
pub struct DeviceState {
    pub sw_version: String,
    pub is_active: bool,
    pub can_play: bool,
    pub volume: u32,
    pub name: String,
    pub error_code: u32,
    pub became_active_at: i64,
    pub capabilities: Vec<Capability>,
}

#[verifier::ext_equal]
pub struct DeviceStateView {
    pub sw_version: Seq<char>,
    pub is_active: bool,
    pub can_play: bool,
    pub volume: u32,
    pub name: Seq<char>,
    pub error_code: u32,
    pub became_active_at: i64,
    pub capabilities: Seq<CapabilityView>,
}

impl View for DeviceState {
    type V = DeviceStateView;

    open spec fn view(&self) -> DeviceStateView {
        DeviceStateView {
            sw_version: self.sw_version@,
            is_active: self.is_active,
            can_play: self.can_play,
            volume: self.volume,
            name: self.name@,
            error_code: self.error_code,
            became_active_at: self.became_active_at,
            capabilities: self.capabilities.deep_view(),
        }
    }
}

/// A track, known by the raw bytes of its identifier.
#[derive(Clone, Debug, PartialEq, Eq)]
pub struct TrackRef {
    pub gid: Vec<u8>,
}

impl View for TrackRef {
    type V = Seq<u8>;

    open spec fn view(&self) -> Seq<u8> {
        self.gid@
    }
}

impl DeepView for TrackRef {
    type V = Seq<u8>;

    open spec fn deep_view(&self) -> Seq<u8> {
        self.gid@
    }
}

/// The part of a frame that describes playback.
#[derive(Clone, Debug, PartialEq, Eq)]
pub struct State {
    pub status: PlayStatus,
    pub position_ms: u32,
    pub position_measured_at: u64,
    pub playing_track_index: u32,
    pub track: Vec<TrackRef>,
    pub shuffle: bool,
    pub repeat: bool,
    pub playing_from_fallback: bool,
    pub last_command_ident: String,
    pub last_command_msgid: u32,
}

#[verifier::ext_equal]
pub struct StateView {
    pub status: PlayStatus,
    pub position_ms: u32,
    pub position_measured_at: u64,
    pub playing_track_index: u32,
    pub track: Seq<Seq<u8>>,
    pub shuffle: bool,
    pub repeat: bool,
    pub playing_from_fallback: bool,
    pub last_command_ident: Seq<char>,
    pub last_command_msgid: u32,
}

impl View for State {
    type V = StateView;

    open spec fn view(&self) -> StateView {
        StateView {
            status: self.status,
            position_ms: self.position_ms,
            position_measured_at: self.position_measured_at,
            playing_track_index: self.playing_track_index,
            track: self.track.deep_view(),
            shuffle: self.shuffle,
            repeat: self.repeat,
            playing_from_fallback: self.playing_from_fallback,
            last_command_ident: self.last_command_ident@,
            last_command_msgid: self.last_command_msgid,
        }
    }
}

/// One control message: who sent it, to whom, what it asks, and the sender's
/// device and playback state.
#[derive(Clone, Debug, PartialEq, Eq)]
pub struct Frame {
    pub version: u32,
    /// The sender's identifier.
    pub ident: String,
    pub protocol_version: String,
    pub seq_nr: u32,
    pub typ: MessageType,
    pub device_state: DeviceState,
    /// Playback state; absent where the sender is not the active device.
    pub state: Option<State>,
    /// The position that a Seek asks for, in milliseconds, where the frame
    /// gives one.
    pub position: Option<u32>,
    /// The identifiers addressed; empty for a broadcast.
    pub recipient: Vec<String>,
    pub state_update_id: i64,
}

#[verifier::ext_equal]
pub struct FrameView {
    pub version: u32,
    pub ident: Seq<char>,
    pub protocol_version: Seq<char>,
    pub seq_nr: u32,
    pub typ: MessageType,
    pub device_state: DeviceStateView,
    pub state: Option<StateView>,
    pub position: Option<u32>,
    pub recipient: Seq<Seq<char>>,
    pub state_update_id: i64,
}

impl View for Frame {
    type V = FrameView;

    open spec fn view(&self) -> FrameView {
        FrameView {
            version: self.version,
            ident: self.ident@,
            protocol_version: self.protocol_version@,
            seq_nr: self.seq_nr,
            typ: self.typ,
            device_state: self.device_state@,
            state: match self.state {
                Some(s) => Some(s@),
                None => None,
            },
            position: self.position,
            recipient: self.recipient.deep_view(),
            state_update_id: self.state_update_id,
        }
    }
}

impl FrameView {
    /// A frame with a recipient list is addressed to those devices only.
    pub open spec fn is_directed(self) -> bool {
        self.recipient.len() > 0
    }
}

impl Frame {
    /// Whether the frame names recipients, rather than going to everyone.
    pub fn is_directed(&self) -> (r: bool)
        ensures
            r == self@.is_directed(),
    {
        self.recipient.len() > 0
    }
}

} // verus!
