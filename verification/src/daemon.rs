//! The daemon's decision core: command dispatch, the load-retry policy for
//! `Next`/`Previous`, and the auto-advance debounce.
//!
//! The core is a state machine over the playlist, the player and the
//! timestamp of the last manual track-changing command. Handling a command
//! either finishes with a `Reply` or asks the surrounding binary to perform
//! one piece of outside work — probe paths on disk, or read and decode one
//! file — and hand the outcome back (`tracks_resolved`, `load_succeeded`,
//! `load_failed`), which yields the next action. The periodic `tick`
//! implements auto-advance.

use vstd::prelude::*;
use vstd::string::*;

use crate::ipc::{Command, PlaybackState, PlayerStatus, Response};
use crate::player::{
    clamped_volume, initial_player, loaded_player, paused_player, resumed_player, sat_sub,
    stopped_player, Player,
};
use crate::playlist::{
    added_tracks_all, next_cursor, playlist_after_adds, prev_cursor, track_at, MediaEntry,
    Playlist,
};

verus! {

/// How often the auto-advance check runs, in milliseconds.
pub const TICK_INTERVAL_MS: u64 = 500;

/// The quiet window after a manual track-changing command during which
/// auto-advance is suppressed, in milliseconds.
pub const QUIET_WINDOW_MS: u64 = 2000;

/// How many playlist candidates `Next` and `Previous` try to load before
/// giving up.
pub const LOAD_ATTEMPTS: u8 = 5;

/// How far in the past the last-manual-command stamp starts, so that
/// auto-advance is not suppressed right after start-up, in milliseconds.
pub const INITIAL_MANUAL_BACKDATE_MS: u64 = 10000;

/// Why a load is being attempted; this decides what follows a failure.
#[derive(Debug, Clone, Copy, PartialEq, Eq, Structural)]
pub enum LoadKind {
    /// A specific path given with `Play`: failure is reported directly.
    Direct,
    /// The playlist's first pick for a bare `Play`: failure is reported
    /// directly.
    FirstTrack,
    /// A `Next` candidate: failure moves on to the following track.
    Forward,
    /// A `Previous` candidate: failure moves on to the preceding track.
    Backward,
}

/// The retry state of a load attempt, handed out with `TryLoad` and handed
/// back to `load_failed`.
#[derive(Debug, Clone, Copy, PartialEq, Eq, Structural)]
pub struct LoadCont {
    pub kind: LoadKind,
    pub attempts_left: u8,
}

/// What the surrounding binary must do next.
#[derive(Debug, Clone, PartialEq)]
pub enum Action {
    /// The exchange is decided: send this response.
    Reply(Response),
    /// Read and decode `path`; report the outcome through
    /// `load_succeeded` or `load_failed(cont, ..)`.
    TryLoad { path: String, cont: LoadCont },
    /// Resolve each path on disk to a `MediaEntry` and hand the entries to
    /// `tracks_resolved`.
    Probe { paths: Vec<String> },
    /// Terminate the daemon process at once.
    Exit,
}

/// Whether a command changes the playing track; each such command
/// re-stamps the last-manual-command time, whatever its outcome.
pub open spec fn is_manual_track_command(cmd: Command) -> bool {
    ||| cmd is Play
    ||| cmd is Next
    ||| cmd is Previous
    ||| cmd is Stop
}

/// The error message when a `Next`/`Previous` retry gives up.
pub open spec fn no_playable_view(forward: bool) -> Seq<char> {
    if forward {
        "No playable next track found"@
    } else {
        "No playable previous track found"@
    }
}

fn no_playable_message(forward: bool) -> (m: String)
    ensures
        m@ == no_playable_view(forward),
{
    if forward {
        String::from_str("No playable next track found")
    } else {
        String::from_str("No playable previous track found")
    }
}

/// The daemon's whole decision state.
#[derive(Debug, Clone)]
pub struct DaemonCore {
    pub playlist: Playlist,
    pub player: Player,
    /// Clock reading of the last manual track-changing command.
    pub last_manual_ms: u64,
}

impl DaemonCore {
    /// Well-formedness of the parts.
    pub open spec fn wf(&self) -> bool {
        &&& self.playlist.wf()
        &&& self.player.wf()
    }

    /// The status snapshot composed for `GetStatus` at clock reading
    /// `now_ms`.
    pub open spec fn spec_status(&self, now_ms: u64) -> PlayerStatus {
        PlayerStatus {
            state: self.player.state,
            current_track: self.player.current_track,
            position_ms: self.player.spec_position_ms(now_ms),
            duration_ms: self.player.duration_ms,
            volume: self.player.volume,
            playlist_length: self.playlist.spec_tracks().len() as usize,
            current_index: match self.playlist.spec_cursor() {
                Some(i) => Some(i as usize),
                None => None,
            },
        }
    }

    /// Whether an auto-advance is due at clock reading `now_ms`: the quiet
    /// window since the last manual command has passed, the sink has
    /// drained, and the player believes it is playing.
    pub open spec fn spec_auto_advance_due(&self, now_ms: u64, sink_empty: bool) -> bool {
        &&& sat_sub(now_ms, self.last_manual_ms) > QUIET_WINDOW_MS
        &&& sink_empty
        &&& self.player.state is Playing
    }

    /// A fresh core: empty playlist, fresh player, and the manual-command
    /// stamp backdated so the first auto-advance is not suppressed.
    pub fn new(now_ms: u64) -> (r: Self)
        ensures
            r.wf(),
            r.playlist.spec_tracks() == Seq::<Seq<char>>::empty(),
            r.playlist.spec_cursor() is None,
            r.player == initial_player(),
            r.last_manual_ms == sat_sub(now_ms, INITIAL_MANUAL_BACKDATE_MS),
    {
        let backdated: u64 = if now_ms >= INITIAL_MANUAL_BACKDATE_MS {
            now_ms - INITIAL_MANUAL_BACKDATE_MS
        } else {
            0
        };
        DaemonCore { playlist: Playlist::new(), player: Player::new(), last_manual_ms: backdated }
    }

    /// The status snapshot at clock reading `now_ms`.
    pub fn status(&self, now_ms: u64) -> (st: PlayerStatus)
        requires
            self.wf(),
        ensures
            st == self.spec_status(now_ms),
    {
        PlayerStatus {
            state: self.player.get_state(),
            current_track: self.player.get_current_track(),
            position_ms: self.player.get_position_ms(now_ms),
            duration_ms: self.player.get_duration_ms(),
            volume: self.player.get_volume(),
            playlist_length: self.playlist.len(),
            current_index: self.playlist.current_index(),
        }
    }

    /// Decides one command. Most commands finish at once with a `Reply`;
    /// `Play`, `Next` and `Previous` may hand a load out with `TryLoad`,
    /// `AddTracks` hands its paths out with `Probe`, and `Shutdown` asks
    /// for `Exit`. Every track-changing command (`Play`, `Next`,
    /// `Previous`, `Stop`) re-stamps the manual-command time first,
    /// whatever follows.
    pub fn handle_command(&mut self, cmd: Command, now_ms: u64) -> (r: Action)
        requires
            old(self).wf(),
        ensures
            final(self).wf(),
            final(self).last_manual_ms == if is_manual_track_command(cmd) {
                now_ms
            } else {
                old(self).last_manual_ms
            },
            // Play of a given path: attempt that load, nothing else moves.
            cmd matches Command::Play { path: Some(p) } ==> {
                &&& final(self).playlist == old(self).playlist
                &&& final(self).player == old(self).player
                &&& r == Action::TryLoad {
                    path: p,
                    cont: LoadCont { kind: LoadKind::Direct, attempts_left: 0 },
                }
            },
            // Bare Play with a current track: resume it.
            (cmd matches Command::Play { path: None }) && old(self).player.current_track is Some
                ==> {
                &&& final(self).playlist == old(self).playlist
                &&& final(self).player == resumed_player(old(self).player, now_ms)
                &&& r == Action::Reply(Response::Done)
            },
            // Bare Play, no current track, empty playlist: an error.
            (cmd matches Command::Play { path: None }) && old(self).player.current_track is None
                && old(self).playlist.spec_tracks().len() == 0 ==> {
                &&& final(self).playlist == old(self).playlist
                &&& final(self).player == old(self).player
                &&& r matches Action::Reply(Response::Error(m)) && m@ == "Playlist is empty"@
            },
            // Bare Play, no current track, non-empty playlist: load the
            // track under the cursor, first selecting the first track if
            // no cursor is set.
            (cmd matches Command::Play { path: None }) && old(self).player.current_track is None
                && old(self).playlist.spec_tracks().len() > 0 ==> {
                &&& final(self).player == old(self).player
                &&& final(self).playlist.spec_tracks() == old(self).playlist.spec_tracks()
                &&& final(self).playlist.spec_cursor() == (if old(self).playlist.spec_cursor()
                    is Some {
                    old(self).playlist.spec_cursor()
                } else {
                    Some(0int)
                })
                &&& r matches Action::TryLoad { path, cont } && Some(path@) == track_at(
                    final(self).playlist.spec_tracks(),
                    final(self).playlist.spec_cursor(),
                ) && cont == LoadCont { kind: LoadKind::FirstTrack, attempts_left: 0 }
            },
            cmd is Pause ==> {
                &&& final(self).playlist == old(self).playlist
                &&& final(self).player == paused_player(old(self).player, now_ms)
                &&& r == Action::Reply(Response::Done)
            },
            cmd is Stop ==> {
                &&& final(self).playlist == old(self).playlist
                &&& final(self).player == stopped_player(old(self).player)
                &&& r == Action::Reply(Response::Done)
            },
            // Next/Previous: advance the cursor once; a selected track is
            // handed out for loading with a retry budget, running off the
            // end is an error.
            cmd is Next || cmd is Previous ==> {
                &&& final(self).player == old(self).player
                &&& final(self).playlist.spec_tracks() == old(self).playlist.spec_tracks()
                &&& final(self).playlist.spec_cursor() == (if cmd is Next {
                    next_cursor(
                        old(self).playlist.spec_tracks().len() as int,
                        old(self).playlist.spec_cursor(),
                    )
                } else {
                    prev_cursor(
                        old(self).playlist.spec_tracks().len() as int,
                        old(self).playlist.spec_cursor(),
                    )
                })
                &&& match track_at(
                    final(self).playlist.spec_tracks(),
                    final(self).playlist.spec_cursor(),
                ) {
                    Some(t) => r matches Action::TryLoad { path, cont } && path@ == t && cont
                        == LoadCont {
                        kind: if cmd is Next {
                            LoadKind::Forward
                        } else {
                            LoadKind::Backward
                        },
                        attempts_left: (LOAD_ATTEMPTS - 1) as u8,
                    },
                    None => r matches Action::Reply(Response::Error(m)) && m@ == no_playable_view(
                        cmd is Next,
                    ),
                }
            },
            cmd matches Command::SetVolume { level } ==> {
                &&& final(self).playlist == old(self).playlist
                &&& final(self).player == (Player {
                    volume: clamped_volume(level),
                    ..old(self).player
                })
                &&& r == Action::Reply(Response::Done)
            },
            cmd matches Command::AddTracks { paths } ==> {
                &&& final(self).playlist == old(self).playlist
                &&& final(self).player == old(self).player
                &&& r == Action::Probe { paths }
            },
            cmd is GetStatus ==> *final(self) == *old(self) && r == Action::Reply(
                Response::Status(old(self).spec_status(now_ms)),
            ),
            cmd is GetPlaylist ==> *final(self) == *old(self) && (r matches Action::Reply(
                Response::Playlist(ts),
            ) && ts.deep_view() == old(self).playlist.spec_tracks()),
            cmd is ClearPlaylist ==> {
                &&& final(self).player == old(self).player
                &&& final(self).playlist.spec_tracks().len() == 0
                &&& final(self).playlist.spec_cursor() is None
                &&& r == Action::Reply(Response::Done)
            },
            cmd is Shutdown ==> *final(self) == *old(self) && r == Action::Exit,
    {
        match &cmd {
            Command::Play { .. } | Command::Next | Command::Previous | Command::Stop => {
                self.last_manual_ms = now_ms;
            },
            _ => {},
        }
        match cmd {
            Command::Play { path } => {
                match path {
                    Some(p) => Action::TryLoad {
                        path: p,
                        cont: LoadCont { kind: LoadKind::Direct, attempts_left: 0 },
                    },
                    None => {
                        if self.player.get_current_track().is_some() {
                            let _ = self.player.play(now_ms);
                            Action::Reply(Response::Done)
                        } else if self.playlist.is_empty() {
                            Action::Reply(Response::Error(String::from_str("Playlist is empty")))
                        } else {
                            let first = match self.playlist.current() {
                                Some(t) => Some(t),
                                None => self.playlist.next(),
                            };
                            match first {
                                Some(t) => Action::TryLoad {
                                    path: t,
                                    cont: LoadCont { kind: LoadKind::FirstTrack, attempts_left: 0 },
                                },
                                None => Action::Reply(
                                    Response::Error(
                                        String::from_str("Failed to get track from playlist"),
                                    ),
                                ),
                            }
                        }
                    },
                }
            },
            Command::Pause => {
                let _ = self.player.pause(now_ms);
                Action::Reply(Response::Done)
            },
            Command::Stop => {
                let _ = self.player.stop();
                Action::Reply(Response::Done)
            },
            Command::Next => {
                match self.playlist.next() {
                    Some(t) => Action::TryLoad {
                        path: t,
                        cont: LoadCont {
                            kind: LoadKind::Forward,
                            attempts_left: LOAD_ATTEMPTS - 1,
                        },
                    },
                    None => Action::Reply(Response::Error(no_playable_message(true))),
                }
            },
            Command::Previous => {
                match self.playlist.previous() {
                    Some(t) => Action::TryLoad {
                        path: t,
                        cont: LoadCont {
                            kind: LoadKind::Backward,
                            attempts_left: LOAD_ATTEMPTS - 1,
                        },
                    },
                    None => Action::Reply(Response::Error(no_playable_message(false))),
                }
            },
            Command::SetVolume { level } => {
                self.player.set_volume(level);
                Action::Reply(Response::Done)
            },
            Command::AddTracks { paths } => Action::Probe { paths },
            Command::GetStatus => Action::Reply(Response::Status(self.status(now_ms))),
            Command::GetPlaylist => Action::Reply(Response::Playlist(self.playlist.get_tracks())),
            Command::ClearPlaylist => {
                self.playlist.clear();
                Action::Reply(Response::Done)
            },
            Command::Shutdown => Action::Exit,
        }
    }

    /// Decides what follows a failed load attempt: a load of a given path
    /// or of the playlist's first pick reports the failure; a `Next` or
    /// `Previous` retry moves on to the adjacent candidate until the
    /// attempt budget is spent or the playlist runs out.
    pub fn load_failed(&mut self, cont: LoadCont, err: String) -> (r: Action)
        requires
            old(self).wf(),
        ensures
            final(self).wf(),
            final(self).player == old(self).player,
            final(self).last_manual_ms == old(self).last_manual_ms,
            cont.kind is Direct ==> final(self).playlist == old(self).playlist && (r matches
            Action::Reply(Response::Error(m)) && m@ == "Failed to play: "@ + err@),
            cont.kind is FirstTrack ==> final(self).playlist == old(self).playlist && (r matches
            Action::Reply(Response::Error(m)) && m@ == "Failed to play first track: "@ + err@),
            (cont.kind is Forward || cont.kind is Backward) && cont.attempts_left == 0
                ==> final(self).playlist == old(self).playlist && (r matches Action::Reply(
                Response::Error(m),
            ) && m@ == no_playable_view(cont.kind is Forward)),
            (cont.kind is Forward || cont.kind is Backward) && cont.attempts_left > 0 ==> {
                &&& final(self).playlist.spec_tracks() == old(self).playlist.spec_tracks()
                &&& final(self).playlist.spec_cursor() == (if cont.kind is Forward {
                    next_cursor(
                        old(self).playlist.spec_tracks().len() as int,
                        old(self).playlist.spec_cursor(),
                    )
                } else {
                    prev_cursor(
                        old(self).playlist.spec_tracks().len() as int,
                        old(self).playlist.spec_cursor(),
                    )
                })
                &&& match track_at(
                    final(self).playlist.spec_tracks(),
                    final(self).playlist.spec_cursor(),
                ) {
                    Some(t) => r matches Action::TryLoad { path, cont: c } && path@ == t && c
                        == LoadCont {
                        kind: cont.kind,
                        attempts_left: (cont.attempts_left - 1) as u8,
                    },
                    None => r matches Action::Reply(Response::Error(m)) && m@ == no_playable_view(
                        cont.kind is Forward,
                    ),
                }
            },
    {
        match cont.kind {
            LoadKind::Direct => Action::Reply(
                Response::Error(String::from_str("Failed to play: ").concat(err.as_str())),
            ),
            LoadKind::FirstTrack => Action::Reply(
                Response::Error(
                    String::from_str("Failed to play first track: ").concat(err.as_str()),
                ),
            ),
            LoadKind::Forward | LoadKind::Backward => {
                let forward = matches!(cont.kind, LoadKind::Forward);
                if cont.attempts_left == 0 {
                    Action::Reply(Response::Error(no_playable_message(forward)))
                } else {
                    let cand = if forward {
                        self.playlist.next()
                    } else {
                        self.playlist.previous()
                    };
                    match cand {
                        Some(t) => Action::TryLoad {
                            path: t,
                            cont: LoadCont {
                                kind: cont.kind,
                                attempts_left: cont.attempts_left - 1,
                            },
                        },
                        None => Action::Reply(Response::Error(no_playable_message(forward))),
                    }
                }
            },
        }
    }

    /// Applies a load that succeeded — for a commanded load, the reply is
    /// the returned `Reply`; an auto-advance load ignores it.
    pub fn load_succeeded(&mut self, path: String, duration_ms: u64, now_ms: u64) -> (r: Action)
        requires
            old(self).wf(),
        ensures
            final(self).wf(),
            final(self).playlist == old(self).playlist,
            final(self).last_manual_ms == old(self).last_manual_ms,
            final(self).player == loaded_player(old(self).player, path, duration_ms, now_ms),
            r == Action::Reply(Response::Done),
    {
        let _ = self.player.apply_load(path, duration_ms, now_ms);
        Action::Reply(Response::Done)
    }

    /// Adds the resolved entries of an `AddTracks` command to the playlist
    /// and decides the reply.
    pub fn tracks_resolved(&mut self, entries: &Vec<MediaEntry>) -> (r: Action)
        requires
            old(self).wf(),
        ensures
            final(self).wf(),
            final(self).player == old(self).player,
            final(self).last_manual_ms == old(self).last_manual_ms,
            (final(self).playlist.spec_tracks(), final(self).playlist.spec_cursor())
                == playlist_after_adds(
                old(self).playlist.spec_tracks(),
                old(self).playlist.spec_cursor(),
                entries@,
            ),
            final(self).playlist.spec_tracks() == old(self).playlist.spec_tracks()
                + added_tracks_all(entries@),
            r == Action::Reply(Response::Done),
    {
        self.playlist.add_tracks(entries);
        Action::Reply(Response::Done)
    }

    /// The auto-advance check, run every `TICK_INTERVAL_MS`: when due, the
    /// playlist advances one track and that track, if any, is returned for
    /// the surrounding binary to load (silently dropping it on failure —
    /// the next due tick advances further). When not due, nothing changes.
    pub fn tick(&mut self, now_ms: u64, sink_empty: bool) -> (r: Option<String>)
        requires
            old(self).wf(),
        ensures
            final(self).wf(),
            final(self).player == old(self).player,
            final(self).last_manual_ms == old(self).last_manual_ms,
            old(self).spec_auto_advance_due(now_ms, sink_empty) ==> {
                &&& final(self).playlist.spec_tracks() == old(self).playlist.spec_tracks()
                &&& final(self).playlist.spec_cursor() == next_cursor(
                    old(self).playlist.spec_tracks().len() as int,
                    old(self).playlist.spec_cursor(),
                )
                &&& r.deep_view() == track_at(
                    final(self).playlist.spec_tracks(),
                    final(self).playlist.spec_cursor(),
                )
            },
            !old(self).spec_auto_advance_due(now_ms, sink_empty) ==> {
                &&& final(self).playlist == old(self).playlist
                &&& r is None
            },
    {
        let since_manual: u64 = if now_ms >= self.last_manual_ms {
            now_ms - self.last_manual_ms
        } else {
            0
        };
        let playing = matches!(self.player.get_state(), PlaybackState::Playing);
        if since_manual > QUIET_WINDOW_MS && sink_empty && playing {
            self.playlist.next()
        } else {
            None
        }
    }
}

} // verus!
