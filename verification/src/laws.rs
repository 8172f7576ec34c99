//! What holds of the state machine over more than one step, or between two
//! devices. Each law is stated over the model that the executable machine
//! follows.

use vstd::prelude::*;
use crate::error::SpircError;
use crate::frame::{FrameView, MessageType};
use crate::model::{load_target, ControlView, EffectView, Input, ManagerView};
use crate::player::{PlayerCommandView, PlayerState};

verus! {

/// One step never touches the identity, and moves the sequence counter only
/// to number the frame that goes out.
proof fn lemma_step(m: ManagerView, input: Input)
    ensures
        m.step(input).0.identity == m.identity,
        m.step(input).0.username == m.username,
        m.step(input).1 is None ==> m.step(input).0.control.seq_nr == m.control.seq_nr,
        m.step(input).1 matches Some(f) ==> {
            &&& f.seq_nr == m.control.seq_nr + 1
            &&& f.seq_nr == m.step(input).0.control.seq_nr
            &&& f.ident == m.identity.ident
        },
{
}

/// Every frame of a run is numbered above the counter at which the run began.
proof fn lemma_sent_above(m: ManagerView, inputs: Seq<Input>, k: int)
    requires
        0 <= k < m.sent(inputs).len(),
    ensures
        m.control.seq_nr < m.sent(inputs)[k].seq_nr,
        m.sent(inputs)[k].ident == m.identity.ident,
    decreases inputs.len(),
{
    let (next, out) = m.step(inputs[0]);
    lemma_step(m, inputs[0]);
    match out {
        Some(f) => {
            if k > 0 {
                lemma_sent_above(next, inputs.drop_first(), k - 1);
            }
        },
        None => {
            lemma_sent_above(next, inputs.drop_first(), k);
        },
    }
}

/// The sequence numbers that a device sends are strictly increasing.
///
/// Take any device and any run of inputs: frames that arrive, looks at the
/// player, announcements asked for, in any order. Of two frames that go out
/// during the run, the later one carries the larger sequence number, and
/// both lie above the counter at which the run began. So no number is used
/// twice. Every frame names the device as its sender.
pub proof fn law_sequence_numbers_increase(m: ManagerView, inputs: Seq<Input>, i: int, j: int)
    requires
        0 <= i < j < m.sent(inputs).len(),
    ensures
        m.control.seq_nr < m.sent(inputs)[i].seq_nr < m.sent(inputs)[j].seq_nr,
        m.sent(inputs)[i].ident == m.identity.ident,
        m.sent(inputs)[j].ident == m.identity.ident,
    decreases inputs.len(),
{
    let (next, out) = m.step(inputs[0]);
    lemma_step(m, inputs[0]);
    lemma_sent_above(m, inputs, i);
    lemma_sent_above(m, inputs, j);
    match out {
        Some(f) => {
            if i == 0 {
                lemma_sent_above(next, inputs.drop_first(), j - 1);
            } else {
                law_sequence_numbers_increase(next, inputs.drop_first(), i - 1, j - 1);
            }
        },
        None => {
            law_sequence_numbers_increase(next, inputs.drop_first(), i, j);
        },
    }
}

/// A run of inputs never changes what a device is, and never lowers its
/// sequence counter.
pub proof fn law_identity_is_kept(m: ManagerView, inputs: Seq<Input>)
    ensures
        m.after(inputs).identity == m.identity,
        m.after(inputs).username == m.username,
        m.after(inputs).control.seq_nr >= m.control.seq_nr,
    decreases inputs.len(),
{
    if inputs.len() > 0 {
        lemma_step(m, inputs[0]);
        law_identity_is_kept(m.step(inputs[0]).0, inputs.drop_first());
    }
}

/// One step keeps an active device in possession of a track, and a frame
/// that goes out speaks of playback exactly if it says the device is active.
proof fn lemma_step_keeps_track(m: ManagerView, input: Input)
    requires
        m.has_track_while_active(),
    ensures
        m.step(input).0.has_track_while_active(),
        m.step(input).1 matches Some(f) ==> (f.state is Some <==> f.device_state.is_active),
{
}

/// An active device always has a current track.
///
/// A device that has just started is inactive. Only a Load makes a device
/// active, and it sets the track in the same step. So whatever inputs
/// follow, the device is never active without a track.
pub proof fn law_active_device_has_a_track(m: ManagerView, inputs: Seq<Input>)
    requires
        m.has_track_while_active(),
    ensures
        m.after(inputs).has_track_while_active(),
        (ManagerView { control: ControlView::initial(), ..m }).has_track_while_active(),
    decreases inputs.len(),
{
    if inputs.len() > 0 {
        lemma_step_keeps_track(m, inputs[0]);
        law_active_device_has_a_track(m.step(inputs[0]).0, inputs.drop_first());
    }
}

/// What a device sends speaks of playback exactly if the device is active.
///
/// Take a device that is not active without a track (one that has just
/// started, say) and any run of inputs. Every frame that goes out during the
/// run carries playback state if it reports the device as active, and
/// carries none if it reports the device as inactive.
pub proof fn law_playback_is_announced_while_active(m: ManagerView, inputs: Seq<Input>, k: int)
    requires
        m.has_track_while_active(),
        0 <= k < m.sent(inputs).len(),
    ensures
        m.sent(inputs)[k].state is Some <==> m.sent(inputs)[k].device_state.is_active,
    decreases inputs.len(),
{
    let (next, out) = m.step(inputs[0]);
    lemma_step_keeps_track(m, inputs[0]);
    match out {
        Some(f) => {
            if k > 0 {
                law_playback_is_announced_while_active(next, inputs.drop_first(), k - 1);
            }
        },
        None => {
            law_playback_is_announced_while_active(next, inputs.drop_first(), k);
        },
    }
}

/// Only a Load changes the current track.
///
/// If a step leaves a device with another track than it had, the input was
/// a frame of type Load that passed the visibility rule, the new track is
/// the one that the frame asked for, and the device is active.
pub proof fn law_track_changes_only_by_load(m: ManagerView, input: Input)
    ensures
        m.step(input).0.control.track != m.control.track ==> {
            &&& input matches Input::Inbound { frame, player, now }
            &&& m.accepts(frame)
            &&& frame.typ == MessageType::Load
            &&& m.step(input).0.control.track == load_target(frame)
            &&& m.step(input).0.control.is_active
        },
{
}

/// Activity changes only by a Load and by a hand-off.
///
/// A device becomes active only by a Load that passed the visibility rule
/// and named a track of its list, and the time of becoming active is then
/// the time of that step. A device becomes inactive only by a Notify that
/// passed the visibility rule and came from a device that claims to be
/// active.
pub proof fn law_activity_changes_only_by_load_and_hand_off(m: ManagerView, input: Input)
    ensures
        !m.control.is_active && m.step(input).0.control.is_active ==> {
            &&& input matches Input::Inbound { frame, player, now }
            &&& m.accepts(frame)
            &&& frame.typ == MessageType::Load
            &&& load_target(frame) is Some
            &&& m.step(input).0.control.became_active_at == now
        },
        m.control.is_active && !m.step(input).0.control.is_active ==> {
            &&& input matches Input::Inbound { frame, player, now }
            &&& m.accepts(frame)
            &&& frame.typ == MessageType::Notify
            &&& frame.device_state.is_active
        },
        m.control.is_active && m.step(input).0.control.is_active ==> m.step(
            input,
        ).0.control.became_active_at == m.control.became_active_at,
{
}

/// The last command is echoed to the peers.
///
/// Let a device handle a frame that was directed to it. From then on, until
/// another directed frame arrives, whatever the device says of its playback
/// names that frame's sender and sequence number as the last command: in the
/// reply that the frame itself may bring about, and in the next announcement
/// asked for.
pub proof fn law_last_command_is_echoed(
    m: ManagerView,
    frame: FrameView,
    player: PlayerState,
    now: i64,
    recipient: Option<Seq<char>>,
    later: PlayerState,
)
    requires
        m.accepts(frame),
        frame.is_directed(),
    ensures
        ({
            let (next, outcome) = m.handle(frame, player, now);
            &&& next.control.last_command_ident == frame.ident
            &&& next.control.last_command_msgid == frame.seq_nr
            &&& outcome matches Ok(EffectView::Announce(reply)) ==> (reply.state matches Some(s)
                ==> s.last_command_ident == frame.ident && s.last_command_msgid == frame.seq_nr)
            &&& next.notify(recipient, later).1 matches Ok(f) ==> (f.state matches Some(s)
                ==> s.last_command_ident == frame.ident && s.last_command_msgid == frame.seq_nr)
        }),
{
}

/// Activity passes from one device to another by announcement.
///
/// Let `b` be active and announce its state to everyone, and let another
/// device `a` handle that announcement. If `a` is active it steps down and
/// asks for exactly one thing, that its player stop; nothing else about it
/// changes. If `a` is inactive the announcement changes nothing and asks for
/// nothing.
pub proof fn law_activity_hand_off(
    a: ManagerView,
    b: ManagerView,
    player_a: PlayerState,
    player_b: PlayerState,
    now: i64,
)
    requires
        a.identity.ident != b.identity.ident,
        b.control.is_active,
        b.control.seq_nr < u32::MAX,
    ensures
        b.notify(None, player_b).1 matches Ok(f) && {
            &&& f.device_state.is_active
            &&& a.control.is_active ==> a.handle(f, player_a, now) == (
                a.deactivated(),
                Ok::<EffectView, SpircError>(
                    EffectView::Command(PlayerCommandView::Stop),
                ),
            )
            &&& !a.control.is_active ==> a.handle(f, player_a, now) == (
                a,
                Ok::<EffectView, SpircError>(EffectView::Nothing),
            )
        },
{
}

} // verus!
