//! The wire-level vocabulary shared by the daemon and its front-ends: one
//! command and one response per connection exchange, plus the fixed local
//! address the daemon listens on. Times travel as whole milliseconds.

use vstd::prelude::*;

verus! {

/// A control command, as carried by one request line.
#[derive(Debug, Clone, PartialEq)]
pub enum Command {
    Play { path: Option<String> },
    Pause,
    Stop,
    Next,
    Previous,
    SetVolume { level: u8 },
    AddTracks { paths: Vec<String> },
    GetStatus,
    GetPlaylist,
    ClearPlaylist,
    Shutdown,
}

/// A reply to one command, as carried by one response line.
#[derive(Debug, Clone, PartialEq)]
pub enum Response {
    Done,
    Status(PlayerStatus),
    Playlist(Vec<String>),
    Error(String),
}

/// A snapshot of the player and playlist, composed for `GetStatus`.
#[derive(Debug, Clone, PartialEq)]
pub struct PlayerStatus {
    pub state: PlaybackState,
    pub current_track: Option<String>,
    pub position_ms: u64,
    pub duration_ms: u64,
    pub volume: u8,
    pub playlist_length: usize,
    pub current_index: Option<usize>,
}

/// The observable half of the player's state machine.
#[derive(Debug, Clone, Copy, PartialEq, Eq, Structural)]
pub enum PlaybackState {
    Playing,
    Paused,
    Stopped,
}

/// The loopback address and port the daemon's listener is bound to.
pub fn get_socket_addr() -> (r: &'static str)
    ensures
        r@ == "127.0.0.1:12345"@,
{
    "127.0.0.1:12345"
}

} // verus!
