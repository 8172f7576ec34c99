//! Control-plane state machine of a remote-controlled playback device.
//!
//! A device shares one publish/subscribe channel with its peers. Every peer
//! may command every other (load, play, pause, seek), and every device keeps
//! announcing its own state. This library holds the rules each device applies
//! on its own: which inbound frames it acts on, how a frame changes its
//! state, which command it hands to its player, and what it announces.
//!
//! The library performs no I/O. The caller receives and decodes frames, takes
//! snapshots of the player, reads the clock, and carries out the effects that
//! the state machine returns.

pub mod error;
pub mod frame;
pub mod laws;
pub mod manager;
pub mod model;
pub mod player;
