//! The executable state machine.
//!
//! `SpircManager` holds a device's identity and control state. Each of its
//! methods is one step of the machine in `crate::model`, and says so in its
//! contract: the state after the call and what is returned are those that the
//! model gives for the state before it.

use vstd::prelude::*;
use vstd::string::StringExecFns;
use crate::error::SpircError;
use crate::frame::{
    Capability, CapabilityType, DeviceState, Frame, MessageType, PlayStatus, State, TrackRef,
};
use crate::frame::{FrameView, StateView};
use crate::model;
use crate::model::{ControlView, EffectView, IdentityView, ManagerView};
use crate::player::{PlayerCommand, PlayerState};

verus! {

/// What a device is. Set up once, from configuration.
#[derive(Clone, Debug, PartialEq, Eq)]
pub struct DeviceIdentity {
    /// The name shown to users.
    pub name: String,
    /// The identifier by which the device knows its own frames and by which
    /// peers address it.
    pub ident: String,
    pub device_type: u8,
    /// Whether the device takes play commands.
    pub can_play: bool,
    /// The software version that the device reports.
    pub sw_version: String,
}

impl View for DeviceIdentity {
    type V = IdentityView;

    open spec fn view(&self) -> IdentityView {
        IdentityView {
            name: self.name@,
            ident: self.ident@,
            device_type: self.device_type,
            can_play: self.can_play,
            sw_version: self.sw_version@,
        }
    }
}

/// What a device keeps track of while it runs.
#[derive(Clone, Debug, PartialEq, Eq)]
pub struct ControlState {
    /// Whether this device is the one that plays.
    pub is_active: bool,
    /// When it became so, in milliseconds. Stale while `is_active` is false.
    pub became_active_at: i64,
    pub repeat: bool,
    pub shuffle: bool,
    pub volume: u16,
    /// The track of the last Load that was applied.
    pub track: Option<TrackRef>,
    /// The sequence number of the last announcement.
    pub seq_nr: u32,
    /// When the player's state was last picked up for an announcement.
    pub state_update_id: i64,
    /// Who sent the last directed frame, and that frame's sequence number.
    pub last_command_ident: String,
    pub last_command_msgid: u32,
}

impl View for ControlState {
    type V = ControlView;

    open spec fn view(&self) -> ControlView {
        ControlView {
            is_active: self.is_active,
            became_active_at: self.became_active_at,
            repeat: self.repeat,
            shuffle: self.shuffle,
            volume: self.volume,
            track: match self.track {
                Some(t) => Some(t@),
                None => None,
            },
            seq_nr: self.seq_nr,
            state_update_id: self.state_update_id,
            last_command_ident: self.last_command_ident@,
            last_command_msgid: self.last_command_msgid,
        }
    }
}

impl ControlState {
    /// The state in which every device starts: inactive, nothing loaded,
    /// nothing announced yet, volume at half scale.
    pub fn new() -> (c: ControlState)
        ensures
            c@ == ControlView::initial(),
    {
        ControlState {
            is_active: false,
            became_active_at: 0,
            repeat: false,
            shuffle: false,
            volume: 0x8000,
            track: None,
            seq_nr: 0,
            state_update_id: 0,
            last_command_ident: String::new(),
            last_command_msgid: 0,
        }
    }
}

/// A device on the control channel of one user.
#[derive(Clone, Debug, PartialEq, Eq)]
pub struct SpircManager {
    pub identity: DeviceIdentity,
    /// The user whose devices share the channel.
    pub username: String,
    pub control: ControlState,
}

impl View for SpircManager {
    type V = ManagerView;

    open spec fn view(&self) -> ManagerView {
        ManagerView { identity: self.identity@, username: self.username@, control: self.control@ }
    }
}

/// What handling one frame asks the caller to do.
#[derive(Clone, Debug, PartialEq, Eq)]
pub enum Effect {
    Nothing,
    /// Hand this command to the player.
    Command(PlayerCommand),
    /// Encode this frame and send it.
    Announce(Frame),
}

impl View for Effect {
    type V = EffectView;

    open spec fn view(&self) -> EffectView {
        match *self {
            Effect::Nothing => EffectView::Nothing,
            Effect::Command(c) => EffectView::Command(c@),
            Effect::Announce(f) => EffectView::Announce(f@),
        }
    }
}

/// The outcome of building transport state, as the model states it.
pub open spec fn state_outcome(r: Result<State, SpircError>) -> Result<StateView, SpircError> {
    match r {
        Ok(s) => Ok(s@),
        Err(e) => Err(e),
    }
}

/// The outcome of an announcement, as the model states it.
pub open spec fn frame_outcome(r: Result<Frame, SpircError>) -> Result<FrameView, SpircError> {
    match r {
        Ok(f) => Ok(f@),
        Err(e) => Err(e),
    }
}

/// The outcome of handling a frame, as the model states it.
pub open spec fn effect_outcome(r: Result<Effect, SpircError>) -> Result<EffectView, SpircError> {
    match r {
        Ok(e) => Ok(e@),
        Err(e) => Err(e),
    }
}

/// The outcome of looking at the player, as the model states it.
pub open spec fn observed_outcome(r: Result<Option<Frame>, SpircError>) -> Result<
    Option<FrameView>,
    SpircError,
> {
    match r {
        Ok(Some(f)) => Ok(Some(f@)),
        Ok(None) => Ok(None),
        Err(e) => Err(e),
    }
}

/// The device that an announcement is addressed to, if any, as the model
/// states it.
pub open spec fn addressee(recipient: Option<&str>) -> Option<Seq<char>> {
    match recipient {
        Some(r) => Some(r@),
        None => None,
    }
}

fn int_capability(typ: CapabilityType, value: i64) -> (c: Capability)
    ensures
        c@ == model::int_capability(typ, value),
{
    let mut int_value: Vec<i64> = Vec::new();
    int_value.push(value);
    let c = Capability { typ, int_value, string_value: Vec::new() };
    assert(c@.int_value =~= seq![value]);
    assert(c@.string_value =~= Seq::<Seq<char>>::empty());
    c
}

fn string_capability(typ: CapabilityType, values: Vec<String>) -> (c: Capability)
    ensures
        c@ == model::string_capability(typ, values.deep_view()),
{
    let c = Capability { typ, int_value: Vec::new(), string_value: values };
    assert(c@.int_value =~= Seq::<i64>::empty());
    c
}

fn supported_contexts() -> (v: Vec<String>)
    ensures
        v.deep_view() == model::supported_contexts(),
{
    let mut v: Vec<String> = Vec::new();
    v.push("album".to_owned());
    v.push("playlist".to_owned());
    v.push("search".to_owned());
    v.push("inbox".to_owned());
    v.push("toplist".to_owned());
    v.push("starred".to_owned());
    v.push("publishedstarred".to_owned());
    v.push("track".to_owned());
    assert(v.deep_view() =~= model::supported_contexts());
    v
}

fn supported_types() -> (v: Vec<String>)
    ensures
        v.deep_view() == model::supported_types(),
{
    let mut v: Vec<String> = Vec::new();
    v.push("audio/local".to_owned());
    v.push("audio/track".to_owned());
    v.push("local".to_owned());
    v.push("track".to_owned());
    assert(v.deep_view() =~= model::supported_types());
    v
}

fn advertised_capabilities(device_type: u8) -> (v: Vec<Capability>)
    ensures
        v.deep_view() == model::advertised_capabilities(device_type),
{
    let mut v: Vec<Capability> = Vec::new();
    v.push(int_capability(CapabilityType::CanBePlayer, 0));
    v.push(int_capability(CapabilityType::DeviceType, device_type as i64));
    v.push(int_capability(CapabilityType::GaiaEqConnectId, 1));
    v.push(int_capability(CapabilityType::SupportsLogout, 0));
    v.push(int_capability(CapabilityType::IsObservable, 1));
    v.push(int_capability(CapabilityType::VolumeSteps, model::VOLUME_STEPS));
    v.push(string_capability(CapabilityType::SupportedContexts, supported_contexts()));
    v.push(string_capability(CapabilityType::SupportedTypes, supported_types()));
    assert(v.deep_view() =~= model::advertised_capabilities(device_type));
    v
}

/// Whether a list of identifiers names `ident`.
fn names(list: &Vec<String>, ident: &String) -> (found: bool)
    ensures
        found == list.deep_view().contains(ident@),
{
    let mut i: usize = 0;
    while i < list.len()
        invariant
            i <= list.len(),
            forall|j: int| 0 <= j < i ==> list.deep_view()[j] != ident@,
        decreases list.len() - i,
    {
        if list[i] == *ident {
            assert(list.deep_view()[i as int] == ident@);
            return true;
        }
        i += 1;
    }
    false
}

fn copy_track(track: &TrackRef) -> (t: TrackRef)
    ensures
        t@ == track@,
{
    let mut gid: Vec<u8> = Vec::new();
    let mut i: usize = 0;
    while i < track.gid.len()
        invariant
            i <= track.gid.len(),
            gid@ == track.gid@.take(i as int),
        decreases track.gid.len() - i,
    {
        gid.push(track.gid[i]);
        assert(gid@ =~= track.gid@.take(i + 1));
        i += 1;
    }
    assert(gid@ =~= track.gid@);
    TrackRef { gid }
}

impl SpircManager {
    /// A device that has just started.
    pub fn new(identity: DeviceIdentity, username: String) -> (m: SpircManager)
        ensures
            m@ == (ManagerView {
                identity: identity@,
                username: username@,
                control: ControlView::initial(),
            }),
    {
        SpircManager { identity, username, control: ControlState::new() }
    }

    /// The visibility rule: whether an inbound frame counts for this device.
    /// It does if somebody else sent it, to everyone or to a list that names
    /// this device.
    pub fn accepts(&self, frame: &Frame) -> (r: bool)
        ensures
            r == self@.accepts(frame@),
            frame.ident@ == self.identity.ident@ ==> !r,
            frame.recipient.len() > 0 && !frame.recipient.deep_view().contains(
                self.identity.ident@,
            ) ==> !r,
    {
        if frame.ident == self.identity.ident {
            return false;
        }
        frame.recipient.len() == 0 || names(&frame.recipient, &self.identity.ident)
    }

    /// How this device describes itself in an announcement.
    ///
    /// Name, version, volume and the ability to play are reported as they
    /// are; the error code is zero; the capabilities are the same on every
    /// call. The time of becoming active is reported as zero while the
    /// device is inactive, whatever time is stored.
    pub fn device_state(&self) -> (ds: DeviceState)
        ensures
            ds@ == self@.device_state(),
            ds.is_active == self.control.is_active,
            !self.control.is_active ==> ds.became_active_at == 0,
            self.control.is_active ==> ds.became_active_at == self.control.became_active_at,
    {
        DeviceState {
            sw_version: self.identity.sw_version.clone(),
            is_active: self.control.is_active,
            can_play: self.identity.can_play,
            volume: self.control.volume as u32,
            name: self.identity.name.clone(),
            error_code: 0,
            became_active_at: if self.control.is_active {
                self.control.became_active_at
            } else {
                0
            },
            capabilities: advertised_capabilities(self.identity.device_type),
        }
    }

    /// How this device describes its playback, from a snapshot of the player.
    ///
    /// Status, position and time of measurement are the player's. The track
    /// list holds the current track alone, at index zero. Asked before any
    /// track was loaded, this fails with `NoCurrentTrack`.
    pub fn state(&self, player: &PlayerState) -> (r: Result<State, SpircError>)
        ensures
            state_outcome(r) == self@.state(*player),
            r is Ok <==> self.control.track is Some,
            r is Err ==> r == Err::<State, SpircError>(SpircError::NoCurrentTrack),
    {
        match &self.control.track {
            Some(track) => {
                let mut list: Vec<TrackRef> = Vec::new();
                list.push(copy_track(track));
                assert(list.deep_view() =~= seq![track@]);
                Ok(
                    State {
                        status: player.status,
                        position_ms: player.position_ms,
                        position_measured_at: player.position_measured_at,
                        playing_track_index: 0,
                        track: list,
                        shuffle: self.control.shuffle,
                        repeat: self.control.repeat,
                        playing_from_fallback: true,
                        last_command_ident: self.control.last_command_ident.clone(),
                        last_command_msgid: self.control.last_command_msgid,
                    },
                )
            },
            None => Err(SpircError::NoCurrentTrack),
        }
    }

    /// The topic on which the user's devices hear each other.
    pub fn subscription_uri(&self) -> (uri: String)
        ensures
            uri@ == self@.subscription_uri(),
    {
        let mut uri = "hm://remote/user/".to_owned();
        uri.append(self.username.as_str());
        uri.append("/v23");
        uri
    }

    /// The topic to which this device sends its frames. Whom a frame is for
    /// is said inside the frame, not by the topic.
    pub fn send_uri(&self) -> (uri: String)
        ensures
            uri@ == self@.send_uri(),
    {
        let mut uri = "hm://remote/user/".to_owned();
        uri.append(self.username.as_str());
        uri
    }

    /// Builds the next announcement of this device's state, for everyone or
    /// for one device.
    ///
    /// The sequence counter goes up by one and the frame carries the new
    /// value. The frame is of type Notify and holds the device state; it
    /// holds playback state only if the device is active and has a track.
    /// With the counter at its largest value the call fails with
    /// `SequenceExhausted` and changes nothing.
    pub fn notify(&mut self, recipient: Option<&str>, player: &PlayerState) -> (r: Result<
        Frame,
        SpircError,
    >)
        ensures
            (final(self)@, frame_outcome(r)) == old(self)@.notify(addressee(recipient), *player),
            r is Ok <==> old(self).control.seq_nr < u32::MAX,
            r is Ok ==> final(self).control.seq_nr == old(self).control.seq_nr + 1,
            r matches Ok(f) ==> {
                &&& f.seq_nr == old(self).control.seq_nr + 1
                &&& f.typ == MessageType::Notify
                &&& f.ident@ == old(self).identity.ident@
                &&& f.recipient.deep_view() == model::recipients(addressee(recipient))
                &&& (f.state is Some <==> old(self).control.is_active && old(
                    self,
                ).control.track is Some)
            },
            r matches Err(e) ==> e == SpircError::SequenceExhausted && final(self)@ == old(self)@,
    {
        if self.control.seq_nr == u32::MAX {
            return Err(SpircError::SequenceExhausted);
        }
        self.control.seq_nr = self.control.seq_nr + 1;
        let state = if self.control.is_active {
            match self.state(player) {
                Ok(s) => Some(s),
                Err(_) => None,
            }
        } else {
            None
        };
        let mut recipients: Vec<String> = Vec::new();
        if let Some(r) = recipient {
            recipients.push(r.to_owned());
        }
        assert(recipients.deep_view() =~= model::recipients(addressee(recipient)));
        let frame = Frame {
            version: model::FRAME_VERSION,
            ident: self.identity.ident.clone(),
            protocol_version: "2.0.0".to_owned(),
            seq_nr: self.control.seq_nr,
            typ: MessageType::Notify,
            device_state: self.device_state(),
            state,
            position: None,
            recipient: recipients,
            state_update_id: self.control.state_update_id,
        };
        assert(self@ == old(self)@.with_seq_nr((old(self).control.seq_nr + 1) as u32));
        assert(frame@ == self@.announcement(addressee(recipient), *player));
        Ok(frame)
    }

    /// Applies a frame that has passed the visibility rule.
    ///
    /// A directed frame is first recorded as the last command, whatever its
    /// type. Then: Hello is answered with an announcement addressed to the
    /// sender; Load makes this device active, takes the track at the
    /// announced index as the current one and asks the player to load it;
    /// Play, Pause and Seek are passed on to the player, a Seek without a
    /// position as a Seek to the start; Notify from a device
    /// that claims to be active makes this device, if active, step down and
    /// stop its player; any other type does nothing.
    ///
    /// A Load whose index lies outside its track list fails with
    /// `TrackIndexOutOfRange` and neither activates the device nor changes
    /// its track. A Hello that cannot be answered fails as `notify` does.
    pub fn apply(&mut self, frame: &Frame, player: &PlayerState, now: i64) -> (r: Result<
        Effect,
        SpircError,
    >)
        ensures
            (final(self)@, effect_outcome(r)) == old(self)@.apply(frame@, *player, now),
            r is Err <==> (frame.typ == MessageType::Load && model::load_target(frame@) is None)
                || (frame.typ == MessageType::Hello && old(self).control.seq_nr == u32::MAX),
            r matches Err(e) ==> e == (if frame.typ == MessageType::Load {
                SpircError::TrackIndexOutOfRange
            } else {
                SpircError::SequenceExhausted
            }),
    {
        if frame.recipient.len() > 0 {
            self.control.last_command_ident = frame.ident.clone();
            self.control.last_command_msgid = frame.seq_nr;
        }
        assert(self@ == old(self)@.record_provenance(frame@));
        match frame.typ {
            MessageType::Hello => {
                match self.notify(Some(frame.ident.as_str()), player) {
                    Ok(reply) => Ok(Effect::Announce(reply)),
                    Err(e) => Err(e),
                }
            },
            MessageType::Load => {
                match &frame.state {
                    Some(s) => {
                        let index: usize = s.playing_track_index as usize;
                        if index < s.track.len() {
                            let track = copy_track(&s.track[index]);
                            let play: bool = s.status == PlayStatus::Play;
                            let position_ms: u32 = s.position_ms;
                            if !self.control.is_active {
                                self.control.is_active = true;
                                self.control.became_active_at = now;
                            }
                            self.control.track = Some(copy_track(&track));
                            assert(model::load_target(frame@) == Some(track@));
                            Ok(Effect::Command(PlayerCommand::Load(track, play, position_ms)))
                        } else {
                            Err(SpircError::TrackIndexOutOfRange)
                        }
                    },
                    None => Err(SpircError::TrackIndexOutOfRange),
                }
            },
            MessageType::Play => Ok(Effect::Command(PlayerCommand::Play)),
            MessageType::Pause => Ok(Effect::Command(PlayerCommand::Pause)),
            MessageType::Seek => {
                let position_ms: u32 = match frame.position {
                    Some(p) => p,
                    None => 0,
                };
                Ok(Effect::Command(PlayerCommand::Seek(position_ms)))
            },
            MessageType::Notify => {
                if self.control.is_active && frame.device_state.is_active {
                    self.control.is_active = false;
                    Ok(Effect::Command(PlayerCommand::Stop))
                } else {
                    Ok(Effect::Nothing)
                }
            },
            MessageType::Other => Ok(Effect::Nothing),
        }
    }

    /// Handles one inbound frame: applies it if it passes the visibility
    /// rule and ignores it otherwise.
    ///
    /// A frame that carries this device's own identifier, or a recipient
    /// list that does not name this device, changes nothing and asks for
    /// nothing. Of a frame that is applied, see `apply`.
    pub fn handle(&mut self, frame: &Frame, player: &PlayerState, now: i64) -> (r: Result<
        Effect,
        SpircError,
    >)
        ensures
            (final(self)@, effect_outcome(r)) == old(self)@.handle(frame@, *player, now),
            final(self)@.identity == old(self)@.identity,
            final(self)@.username == old(self)@.username,
            frame.ident@ == old(self).identity.ident@ ==> final(self)@ == old(self)@ && r matches Ok(
                Effect::Nothing,
            ),
            frame@.is_directed() && !frame@.recipient.contains(old(self).identity.ident@)
                ==> final(self)@ == old(self)@ && r matches Ok(Effect::Nothing),
            old(self)@.accepts(frame@) && frame@.is_directed() ==> {
                &&& final(self).control.last_command_ident@ == frame.ident@
                &&& final(self).control.last_command_msgid == frame.seq_nr
            },
            !frame@.is_directed() ==> {
                &&& final(self).control.last_command_ident@ == old(self).control.last_command_ident@
                &&& final(self).control.last_command_msgid == old(self).control.last_command_msgid
            },
            frame.typ == MessageType::Notify && old(self)@.accepts(frame@) && old(
                self,
            ).control.is_active && frame.device_state.is_active ==> {
                &&& !final(self).control.is_active
                &&& final(self)@ == old(self)@.record_provenance(frame@).deactivated()
                &&& r matches Ok(Effect::Command(PlayerCommand::Stop))
            },
            frame.typ == MessageType::Notify && !old(self).control.is_active ==> {
                &&& !final(self).control.is_active
                &&& r matches Ok(Effect::Nothing)
                &&& !frame@.is_directed() ==> final(self)@ == old(self)@
            },
            frame.typ == MessageType::Hello && old(self)@.accepts(frame@) && old(
                self,
            ).control.seq_nr < u32::MAX ==> (r matches Ok(Effect::Announce(reply)) && {
                &&& reply.recipient.deep_view() == seq![frame.ident@]
                &&& reply.seq_nr == old(self).control.seq_nr + 1
            }),
            final(self).control.seq_nr >= old(self).control.seq_nr,
            r is Err <==> old(self)@.accepts(frame@) && ((frame.typ == MessageType::Load
                && model::load_target(frame@) is None) || (frame.typ == MessageType::Hello && old(
                self,
            ).control.seq_nr == u32::MAX)),
            r matches Err(e) ==> e == (if frame.typ == MessageType::Load {
                SpircError::TrackIndexOutOfRange
            } else {
                SpircError::SequenceExhausted
            }),
    {
        if self.accepts(frame) {
            self.apply(frame, player, now)
        } else {
            Ok(Effect::Nothing)
        }
    }

    /// Looks at the player and announces its state if it has changed.
    ///
    /// If the player's time of last update is later than the freshness
    /// marker, the marker is set to `now` and an announcement for everyone
    /// is built, as by `notify`; the marker stays set even if that fails.
    /// Otherwise nothing changes and nothing is announced.
    pub fn observe(&mut self, player: &PlayerState, now: i64) -> (r: Result<
        Option<Frame>,
        SpircError,
    >)
        ensures
            (final(self)@, observed_outcome(r)) == old(self)@.observe(*player, now),
            player.update_time <= old(self).control.state_update_id ==> final(self)@ == old(self)@
                && r matches Ok(None),
            player.update_time > old(self).control.state_update_id ==> {
                &&& final(self).control.state_update_id == now
                &&& r is Ok <==> old(self).control.seq_nr < u32::MAX
                &&& r matches Ok(f) ==> f is Some
                &&& r matches Err(e) ==> e == SpircError::SequenceExhausted
            },
    {
        if player.update_time > self.control.state_update_id {
            self.control.state_update_id = now;
            assert(self@ == old(self)@.with_state_update_id(now));
            match self.notify(None, player) {
                Ok(f) => Ok(Some(f)),
                Err(e) => Err(e),
            }
        } else {
            Ok(None)
        }
    }
}

} // verus!
