//! Failures of the state machine. Each is confined to the call that reports it.

use vstd::prelude::*;

verus! {

/// Why a frame could not be applied or an announcement could not be built.
#[derive(Clone, Copy, Debug, PartialEq, Eq, Structural)]
pub enum SpircError {
    /// A Load frame announced a playing-track index that its track list does
    /// not hold (a frame without transport state holds no track at all).
    TrackIndexOutOfRange,
    /// Transport state was asked for while no track has been loaded.
    NoCurrentTrack,
    /// The sequence counter has reached its largest value; a further
    /// announcement would have to reuse a number.
    SequenceExhausted,
}

} // verus!
