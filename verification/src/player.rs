//! The player as the state machine sees it: a snapshot to read and a small
//! vocabulary of commands to hand over.

use vstd::prelude::*;
use crate::frame::{PlayStatus, TrackRef};

verus! {

/// A consistent copy of the player's own state, taken by the caller while it
/// holds the player's lock and handed over after the lock is released.
#[derive(Clone, Copy, Debug, PartialEq, Eq, Structural)]
pub struct PlayerState {
    pub status: PlayStatus,
    pub position_ms: u32,
    /// When `position_ms` was measured, in milliseconds.
    pub position_measured_at: u64,
    /// When the player last changed any of the above, in milliseconds.
    pub update_time: i64,
}

/// What the state machine asks of the player.
#[derive(Clone, Debug, PartialEq, Eq)]
pub enum PlayerCommand {
    /// Load a track, start playing at once or stay paused, at a position in
    /// milliseconds.
    Load(TrackRef, bool, u32),
    Play,
    Pause,
    /// Jump to a position in milliseconds.
    Seek(u32),
    Stop,
}

/// A `PlayerCommand` with its track as plain bytes.
pub enum PlayerCommandView {
    Load(Seq<u8>, bool, u32),
    Play,
    Pause,
    Seek(u32),
    Stop,
}

impl View for PlayerCommand {
    type V = PlayerCommandView;

    open spec fn view(&self) -> PlayerCommandView {
        match *self {
            PlayerCommand::Load(track, play, position_ms) => PlayerCommandView::Load(
                track@,
                play,
                position_ms,
            ),
            PlayerCommand::Play => PlayerCommandView::Play,
            PlayerCommand::Pause => PlayerCommandView::Pause,
            PlayerCommand::Seek(position_ms) => PlayerCommandView::Seek(position_ms),
            PlayerCommand::Stop => PlayerCommandView::Stop,
        }
    }
}

} // verus!
