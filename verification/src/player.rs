//! The player's state machine: current track, playback state, volume, and
//! wall-clock position tracking across load/play/pause/stop transitions.
//!
//! The machine is pure: every time-dependent operation takes the current
//! monotonic clock reading in milliseconds as an argument. The surrounding
//! binary owns the audio sink; after it has read and decoded a file it hands
//! the path and the decoded duration to `apply_load`, and it mirrors the
//! other transitions onto the sink as it calls them here.

use vstd::prelude::*;

use crate::ipc::PlaybackState;

verus! {

/// A notification emitted by a state transition, for interested observers.
#[derive(Debug, Clone, PartialEq)]
pub enum PlayerEvent {
    TrackChanged,
    StateChanged,
}

/// `a + b`, stopping at the top of the `u64` range.
pub open spec fn sat_add(a: u64, b: u64) -> u64 {
    if a + b > u64::MAX {
        u64::MAX
    } else {
        (a + b) as u64
    }
}

/// `a - b`, stopping at zero.
pub open spec fn sat_sub(a: u64, b: u64) -> u64 {
    if a >= b {
        (a - b) as u64
    } else {
        0
    }
}

fn sat_add_u64(a: u64, b: u64) -> (r: u64)
    ensures
        r == sat_add(a, b),
{
    if a > u64::MAX - b {
        u64::MAX
    } else {
        a + b
    }
}

fn sat_sub_u64(a: u64, b: u64) -> (r: u64)
    ensures
        r == sat_sub(a, b),
{
    if a >= b {
        a - b
    } else {
        0
    }
}

/// The player's state. `start_ms` is the clock reading at which the
/// current running segment began; it is set exactly while playing.
/// `paused_accum_ms` accumulates the time played before the current
/// segment; both reset on a new load and on stop.
#[derive(Debug, Clone, PartialEq)]
pub struct Player {
    pub current_track: Option<String>,
    pub state: PlaybackState,
    pub volume: u8,
    pub duration_ms: u64,
    pub start_ms: Option<u64>,
    pub paused_accum_ms: u64,
}

/// The player just constructed: stopped, nothing loaded, volume at 70.
pub open spec fn initial_player() -> Player {
    Player {
        current_track: None,
        state: PlaybackState::Stopped,
        volume: 70,
        duration_ms: 0,
        start_ms: None,
        paused_accum_ms: 0,
    }
}

/// The player after a successful load: the track is current, the decoded
/// duration is stored, the position timer restarts at `now_ms`, playing.
pub open spec fn loaded_player(p: Player, path: String, duration_ms: u64, now_ms: u64) -> Player {
    Player {
        current_track: Some(path),
        state: PlaybackState::Playing,
        volume: p.volume,
        duration_ms,
        start_ms: Some(now_ms),
        paused_accum_ms: 0,
    }
}

/// The player after `play`: if a track is current, a running segment opens
/// at `now_ms` and the state is playing; otherwise nothing changes.
pub open spec fn resumed_player(p: Player, now_ms: u64) -> Player {
    if p.current_track is Some {
        Player { state: PlaybackState::Playing, start_ms: Some(now_ms), ..p }
    } else {
        p
    }
}

/// The player after `pause`: unless already paused, the running segment is
/// folded into the accumulated position — freezing it at its value at
/// `now_ms` — and the state is paused.
pub open spec fn paused_player(p: Player, now_ms: u64) -> Player {
    if p.state is Paused {
        p
    } else {
        Player {
            state: PlaybackState::Paused,
            start_ms: None,
            paused_accum_ms: p.spec_position_ms(now_ms),
            ..p
        }
    }
}

/// The player after `stop`: nothing current, timers zeroed, stopped. The
/// last decoded duration is left behind; a new load overwrites it.
pub open spec fn stopped_player(p: Player) -> Player {
    Player {
        current_track: None,
        state: PlaybackState::Stopped,
        start_ms: None,
        paused_accum_ms: 0,
        ..p
    }
}

/// `level` clamped to the volume range 0..=100.
pub open spec fn clamped_volume(level: u8) -> u8 {
    if level > 100 {
        100
    } else {
        level
    }
}

impl Player {
    /// Well-formedness: the volume is a percentage, and a running segment
    /// is open exactly while playing.
    pub open spec fn wf(&self) -> bool {
        &&& self.volume <= 100
        &&& (self.state is Playing <==> self.start_ms is Some)
    }

    /// The playback position at clock reading `now_ms`: the accumulated
    /// paused-time plus the running segment, if one is open.
    pub open spec fn spec_position_ms(&self, now_ms: u64) -> u64 {
        match self.start_ms {
            Some(s) => sat_add(self.paused_accum_ms, sat_sub(now_ms, s)),
            None => self.paused_accum_ms,
        }
    }

    /// A fresh player: stopped, nothing loaded, volume at 70 percent.
    pub fn new() -> (r: Self)
        ensures
            r.wf(),
            r == initial_player(),
    {
        Player {
            current_track: None,
            state: PlaybackState::Stopped,
            volume: 70,
            duration_ms: 0,
            start_ms: None,
            paused_accum_ms: 0,
        }
    }

    /// Applies a successful load of `path` whose decoded duration is
    /// `duration_ms` (0 when unknown): the track becomes current, the
    /// position timer restarts at `now_ms`, and playback begins.
    pub fn apply_load(&mut self, path: String, duration_ms: u64, now_ms: u64) -> (evs: Vec<
        PlayerEvent,
    >)
        requires
            old(self).wf(),
        ensures
            final(self).wf(),
            *final(self) == loaded_player(*old(self), path, duration_ms, now_ms),
            final(self).spec_position_ms(now_ms) == 0,
            evs@ == seq![PlayerEvent::TrackChanged, PlayerEvent::StateChanged],
    {
        self.duration_ms = duration_ms;
        self.start_ms = Some(now_ms);
        self.paused_accum_ms = 0;
        self.current_track = Some(path);
        self.state = PlaybackState::Playing;
        let mut evs: Vec<PlayerEvent> = Vec::new();
        evs.push(PlayerEvent::TrackChanged);
        evs.push(PlayerEvent::StateChanged);
        assert(evs@ =~= seq![PlayerEvent::TrackChanged, PlayerEvent::StateChanged]);
        evs
    }

    /// Resumes playback if a track is current: a new running segment opens
    /// at `now_ms`. Without a current track nothing happens.
    pub fn play(&mut self, now_ms: u64) -> (evs: Vec<PlayerEvent>)
        requires
            old(self).wf(),
        ensures
            final(self).wf(),
            *final(self) == resumed_player(*old(self), now_ms),
            old(self).current_track is Some ==> evs@ == seq![PlayerEvent::StateChanged],
            old(self).current_track is None ==> evs@.len() == 0,
    {
        let mut evs: Vec<PlayerEvent> = Vec::new();
        if self.current_track.is_some() {
            self.start_ms = Some(now_ms);
            self.state = PlaybackState::Playing;
            evs.push(PlayerEvent::StateChanged);
            assert(evs@ =~= seq![PlayerEvent::StateChanged]);
        }
        evs
    }

    /// Pauses playback unless already paused: the running segment, if one
    /// is open, is folded into the accumulated position — so the position
    /// freezes at its value at `now_ms` — and the state becomes paused.
    pub fn pause(&mut self, now_ms: u64) -> (evs: Vec<PlayerEvent>)
        requires
            old(self).wf(),
        ensures
            final(self).wf(),
            *final(self) == paused_player(*old(self), now_ms),
            !(old(self).state is Paused) ==> evs@ == seq![PlayerEvent::StateChanged],
            old(self).state is Paused ==> evs@.len() == 0,
    {
        let mut evs: Vec<PlayerEvent> = Vec::new();
        if !matches!(self.state, PlaybackState::Paused) {
            let elapsed = match self.start_ms {
                Some(s) => sat_sub_u64(now_ms, s),
                None => 0,
            };
            self.paused_accum_ms = sat_add_u64(self.paused_accum_ms, elapsed);
            self.start_ms = None;
            self.state = PlaybackState::Paused;
            evs.push(PlayerEvent::StateChanged);
            assert(evs@ =~= seq![PlayerEvent::StateChanged]);
        }
        evs
    }

    /// Halts playback: no current track, both timer fields back to their
    /// zero values, state stopped. The last decoded duration is left as it
    /// was, as a new load overwrites it anyway.
    pub fn stop(&mut self) -> (evs: Vec<PlayerEvent>)
        requires
            old(self).wf(),
        ensures
            final(self).wf(),
            *final(self) == stopped_player(*old(self)),
            evs@ == seq![PlayerEvent::StateChanged],
    {
        self.start_ms = None;
        self.paused_accum_ms = 0;
        self.current_track = None;
        self.state = PlaybackState::Stopped;
        let mut evs: Vec<PlayerEvent> = Vec::new();
        evs.push(PlayerEvent::StateChanged);
        assert(evs@ =~= seq![PlayerEvent::StateChanged]);
        evs
    }

    /// Stores `level` clamped to 0..=100. Nothing else changes.
    pub fn set_volume(&mut self, level: u8)
        requires
            old(self).wf(),
        ensures
            final(self).wf(),
            *final(self) == (Player { volume: clamped_volume(level), ..*old(self) }),
    {
        self.volume = if level > 100 {
            100
        } else {
            level
        };
    }

    /// The stored volume, a percentage.
    pub fn get_volume(&self) -> (r: u8)
        ensures
            r == self.volume,
    {
        self.volume
    }

    /// The observable playback state.
    pub fn get_state(&self) -> (r: PlaybackState)
        ensures
            r == self.state,
    {
        self.state
    }

    /// The current track's path, if one is loaded.
    pub fn get_current_track(&self) -> (r: Option<String>)
        ensures
            r == self.current_track,
    {
        match &self.current_track {
            Some(t) => Some(t.clone()),
            None => None,
        }
    }

    /// The decoded duration of the last load, in milliseconds; 0 means
    /// unknown.
    pub fn get_duration_ms(&self) -> (r: u64)
        ensures
            r == self.duration_ms,
    {
        self.duration_ms
    }

    /// The playback position at clock reading `now_ms`, in milliseconds.
    pub fn get_position_ms(&self, now_ms: u64) -> (r: u64)
        ensures
            r == self.spec_position_ms(now_ms),
    {
        match self.start_ms {
            Some(s) => sat_add_u64(self.paused_accum_ms, sat_sub_u64(now_ms, s)),
            None => self.paused_accum_ms,
        }
    }
}

/// Law: while the player is playing, the position never decreases as the
/// clock advances.
pub proof fn lemma_position_monotonic(p: Player, n1: u64, n2: u64)
    requires
        p.wf(),
        p.state is Playing,
        n1 <= n2,
    ensures
        p.spec_position_ms(n1) <= p.spec_position_ms(n2),
{
}

/// Law: while the player is paused, the position is frozen — it reads
/// exactly the same at any two clock readings.
pub proof fn lemma_position_frozen(p: Player, n1: u64, n2: u64)
    requires
        p.wf(),
        p.state is Paused,
    ensures
        p.spec_position_ms(n1) == p.spec_position_ms(n2),
{
}

} // verus!
