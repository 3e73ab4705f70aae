//! Core of a local music-playback daemon.
//!
//! The library holds the daemon's decision logic: the playlist with its
//! cursor, the player's state machine (state, volume, wall-clock position
//! tracking), the command/response protocol, the daemon's command dispatch
//! and auto-advance policy, and the terminal colour themes. Everything here
//! is pure state and arithmetic; reading files, decoding audio, driving the
//! audio device and carrying messages over the network are left to the
//! surrounding binary, which feeds plain values (paths, durations, clock
//! readings in milliseconds) into these types and performs the actions they
//! decide on.

pub mod daemon;
pub mod ipc;
pub mod player;
pub mod playlist;
pub mod theme;

pub use playlist::Playlist;
pub use player::Player;
