use musicplayer::daemon::{Action, DaemonCore, LoadCont, LoadKind, LOAD_ATTEMPTS, QUIET_WINDOW_MS};
use musicplayer::ipc::{Command, PlaybackState, Response};
use musicplayer::playlist::MediaEntry;

fn fresh_core() -> DaemonCore {
    DaemonCore::new(100_000)
}

fn add_files(c: &mut DaemonCore, paths: &[&str], now: u64) {
    let cmd = Command::AddTracks { paths: paths.iter().map(|s| s.to_string()).collect() };
    match c.handle_command(cmd, now) {
        Action::Probe { paths } => {
            let entries: Vec<MediaEntry> =
                paths.into_iter().map(MediaEntry::File).collect();
            assert_eq!(c.tracks_resolved(&entries), Action::Reply(Response::Done));
        }
        other => panic!("expected Probe, got {:?}", other),
    }
}

fn status_of(c: &DaemonCore, now: u64) -> musicplayer::ipc::PlayerStatus {
    c.status(now)
}

#[test]
fn play_on_empty_playlist_is_an_error() {
    let mut c = fresh_core();
    let r = c.handle_command(Command::Play { path: None }, 100_000);
    assert_eq!(r, Action::Reply(Response::Error("Playlist is empty".to_string())));
}

#[test]
fn add_tracks_then_status_reports_the_length() {
    let mut c = fresh_core();
    add_files(&mut c, &["a.mp3", "b.flac"], 100_000);
    let st = status_of(&c, 100_000);
    assert_eq!(st.playlist_length, 2);
    // the first file arrived alone, so it set the cursor to the first track
    assert_eq!(st.current_index, Some(0));
    assert_eq!(st.state, PlaybackState::Stopped);
}

#[test]
fn bare_play_loads_the_first_track() {
    let mut c = fresh_core();
    add_files(&mut c, &["a.mp3", "b.flac"], 100_000);
    let r = c.handle_command(Command::Play { path: None }, 100_500);
    match r {
        Action::TryLoad { path, cont } => {
            assert_eq!(path, "a.mp3");
            assert_eq!(cont, LoadCont { kind: LoadKind::FirstTrack, attempts_left: 0 });
            assert_eq!(c.load_succeeded(path, 0, 100_500), Action::Reply(Response::Done));
        }
        other => panic!("expected TryLoad, got {:?}", other),
    }
    let st = status_of(&c, 100_500);
    assert_eq!(st.state, PlaybackState::Playing);
    assert_eq!(st.current_track, Some("a.mp3".to_string()));
    assert_eq!(st.current_index, Some(0));
}

#[test]
fn next_advances_and_a_further_next_runs_off_the_end() {
    let mut c = fresh_core();
    add_files(&mut c, &["a.mp3", "b.flac"], 100_000);
    let r = c.handle_command(Command::Play { path: None }, 100_100);
    if let Action::TryLoad { path, .. } = r {
        c.load_succeeded(path, 0, 100_100);
    } else {
        panic!("expected TryLoad");
    }

    let r = c.handle_command(Command::Next, 100_200);
    match r {
        Action::TryLoad { path, cont } => {
            assert_eq!(path, "b.flac");
            assert_eq!(cont, LoadCont { kind: LoadKind::Forward, attempts_left: 4 });
            c.load_succeeded(path, 0, 100_200);
        }
        other => panic!("expected TryLoad, got {:?}", other),
    }
    let st = status_of(&c, 100_200);
    assert_eq!(st.current_index, Some(1));
    assert_eq!(st.current_track, Some("b.flac".to_string()));

    // the playlist is exhausted: an error, and the loaded track stays
    let r = c.handle_command(Command::Next, 100_300);
    assert_eq!(r, Action::Reply(Response::Error("No playable next track found".to_string())));
    let st = status_of(&c, 100_300);
    assert_eq!(st.current_track, Some("b.flac".to_string()));
    assert_eq!(st.state, PlaybackState::Playing);
    assert_eq!(st.current_index, None);
}

#[test]
fn set_volume_is_reported_by_status() {
    let mut c = fresh_core();
    let r = c.handle_command(Command::SetVolume { level: 55 }, 100_000);
    assert_eq!(r, Action::Reply(Response::Done));
    assert_eq!(status_of(&c, 100_000).volume, 55);
    let r = c.handle_command(Command::SetVolume { level: 150 }, 100_000);
    assert_eq!(r, Action::Reply(Response::Done));
    assert_eq!(status_of(&c, 100_000).volume, 100);
}

#[test]
fn play_with_a_path_attempts_that_load_directly() {
    let mut c = fresh_core();
    let r = c.handle_command(Command::Play { path: Some("x/y.mp3".to_string()) }, 100_000);
    assert_eq!(
        r,
        Action::TryLoad {
            path: "x/y.mp3".to_string(),
            cont: LoadCont { kind: LoadKind::Direct, attempts_left: 0 },
        }
    );
    let r = c.load_failed(LoadCont { kind: LoadKind::Direct, attempts_left: 0 }, "boom".to_string());
    assert_eq!(r, Action::Reply(Response::Error("Failed to play: boom".to_string())));
}

#[test]
fn failed_first_pick_reports_the_failure() {
    let mut c = fresh_core();
    add_files(&mut c, &["a.mp3"], 100_000);
    let r = c.handle_command(Command::Play { path: None }, 100_000);
    let cont = match r {
        Action::TryLoad { cont, .. } => cont,
        other => panic!("expected TryLoad, got {:?}", other),
    };
    let r = c.load_failed(cont, "no such file".to_string());
    assert_eq!(
        r,
        Action::Reply(Response::Error("Failed to play first track: no such file".to_string()))
    );
}

#[test]
fn bare_play_resumes_a_paused_track() {
    let mut c = fresh_core();
    add_files(&mut c, &["a.mp3"], 100_000);
    if let Action::TryLoad { path, .. } = c.handle_command(Command::Play { path: None }, 100_000) {
        c.load_succeeded(path, 0, 100_000);
    } else {
        panic!("expected TryLoad");
    }
    assert_eq!(c.handle_command(Command::Pause, 103_000), Action::Reply(Response::Done));
    assert_eq!(status_of(&c, 103_000).state, PlaybackState::Paused);
    assert_eq!(status_of(&c, 103_000).position_ms, 3000);
    assert_eq!(c.handle_command(Command::Play { path: None }, 105_000), Action::Reply(Response::Done));
    let st = status_of(&c, 106_000);
    assert_eq!(st.state, PlaybackState::Playing);
    assert_eq!(st.position_ms, 4000);
}

#[test]
fn next_retries_successive_candidates_after_failures() {
    let mut c = fresh_core();
    add_files(&mut c, &["a.mp3", "b.mp3", "c.mp3"], 100_000);
    let r = c.handle_command(Command::Next, 100_000);
    let (p1, cont1) = match r {
        Action::TryLoad { path, cont } => (path, cont),
        other => panic!("expected TryLoad, got {:?}", other),
    };
    // the cursor starts on track 0, so Next offers the second track first
    assert_eq!(p1, "b.mp3");
    assert_eq!(cont1.attempts_left, LOAD_ATTEMPTS - 1);
    let r = c.load_failed(cont1, "bad".to_string());
    let (p2, cont2) = match r {
        Action::TryLoad { path, cont } => (path, cont),
        other => panic!("expected TryLoad, got {:?}", other),
    };
    assert_eq!(p2, "c.mp3");
    assert_eq!(cont2, LoadCont { kind: LoadKind::Forward, attempts_left: 3 });
    // the playlist runs out before the budget does
    let r = c.load_failed(cont2, "bad".to_string());
    assert_eq!(r, Action::Reply(Response::Error("No playable next track found".to_string())));
}

#[test]
fn retry_budget_is_spent_after_five_attempts() {
    let mut c = fresh_core();
    add_files(&mut c, &["a.mp3", "b.mp3", "c.mp3", "d.mp3", "e.mp3", "f.mp3", "g.mp3"], 100_000);
    let mut r = c.handle_command(Command::Next, 100_000);
    let mut attempts = 0;
    loop {
        match r {
            Action::TryLoad { cont, .. } => {
                attempts += 1;
                r = c.load_failed(cont, "bad".to_string());
            }
            Action::Reply(resp) => {
                assert_eq!(
                    resp,
                    Response::Error("No playable next track found".to_string())
                );
                break;
            }
            other => panic!("unexpected action {:?}", other),
        }
    }
    assert_eq!(attempts, LOAD_ATTEMPTS as usize);
    // the first add left the cursor on track 0, so the five candidates
    // consumed were tracks 1 through 5; the cursor rests on the last
    assert_eq!(status_of(&c, 100_000).current_index, Some(5));
}

#[test]
fn previous_clamps_and_retries_backwards() {
    let mut c = fresh_core();
    add_files(&mut c, &["a.mp3", "b.mp3"], 100_000);
    // the cursor starts on the first track; one Next reaches the second
    if let Action::TryLoad { path, .. } = c.handle_command(Command::Next, 100_000) {
        assert_eq!(path, "b.mp3");
        c.load_succeeded(path, 0, 100_000);
    } else {
        panic!("expected TryLoad");
    }
    let r = c.handle_command(Command::Previous, 100_200);
    let (p, cont) = match r {
        Action::TryLoad { path, cont } => (path, cont),
        other => panic!("expected TryLoad, got {:?}", other),
    };
    assert_eq!(p, "a.mp3");
    assert_eq!(cont.kind, LoadKind::Backward);
    // a failure retries the clamped first track again
    let r = c.load_failed(cont, "bad".to_string());
    match r {
        Action::TryLoad { path, cont } => {
            assert_eq!(path, "a.mp3");
            assert_eq!(cont.kind, LoadKind::Backward);
        }
        other => panic!("expected TryLoad, got {:?}", other),
    }
}

#[test]
fn previous_on_empty_playlist_is_an_error() {
    let mut c = fresh_core();
    let r = c.handle_command(Command::Previous, 100_000);
    assert_eq!(
        r,
        Action::Reply(Response::Error("No playable previous track found".to_string()))
    );
}

#[test]
fn stop_halts_and_clears_the_current_track() {
    let mut c = fresh_core();
    add_files(&mut c, &["a.mp3"], 100_000);
    if let Action::TryLoad { path, .. } = c.handle_command(Command::Play { path: None }, 100_000) {
        c.load_succeeded(path, 0, 100_000);
    } else {
        panic!("expected TryLoad");
    }
    assert_eq!(c.handle_command(Command::Stop, 100_500), Action::Reply(Response::Done));
    let st = status_of(&c, 100_500);
    assert_eq!(st.state, PlaybackState::Stopped);
    assert_eq!(st.current_track, None);
    assert_eq!(st.position_ms, 0);
}

#[test]
fn get_playlist_returns_the_tracks() {
    let mut c = fresh_core();
    add_files(&mut c, &["a.mp3", "b.flac"], 100_000);
    let r = c.handle_command(Command::GetPlaylist, 100_000);
    assert_eq!(
        r,
        Action::Reply(Response::Playlist(vec!["a.mp3".to_string(), "b.flac".to_string()]))
    );
}

#[test]
fn clear_playlist_empties_it() {
    let mut c = fresh_core();
    add_files(&mut c, &["a.mp3", "b.flac"], 100_000);
    assert_eq!(c.handle_command(Command::ClearPlaylist, 100_000), Action::Reply(Response::Done));
    let st = status_of(&c, 100_000);
    assert_eq!(st.playlist_length, 0);
    assert_eq!(st.current_index, None);
}

#[test]
fn shutdown_asks_for_exit() {
    let mut c = fresh_core();
    assert_eq!(c.handle_command(Command::Shutdown, 100_000), Action::Exit);
}

#[test]
fn directories_expand_through_probe() {
    let mut c = fresh_core();
    match c.handle_command(Command::AddTracks { paths: vec!["music".to_string()] }, 100_000) {
        Action::Probe { paths } => {
            assert_eq!(paths, vec!["music".to_string()]);
            let entries = vec![MediaEntry::Dir(vec![
                "music/a.mp3".to_string(),
                "music/cover.jpg".to_string(),
                "music/b.ogg".to_string(),
            ])];
            assert_eq!(c.tracks_resolved(&entries), Action::Reply(Response::Done));
        }
        other => panic!("expected Probe, got {:?}", other),
    }
    assert_eq!(status_of(&c, 100_000).playlist_length, 2);
}

#[test]
fn tick_auto_advances_only_when_due() {
    let mut c = fresh_core();
    add_files(&mut c, &["a.mp3", "b.mp3"], 100_000);
    if let Action::TryLoad { path, .. } = c.handle_command(Command::Play { path: None }, 100_000) {
        c.load_succeeded(path, 0, 100_000);
    } else {
        panic!("expected TryLoad");
    }
    // within the quiet window: suppressed even though the sink is empty
    assert_eq!(c.tick(100_000 + QUIET_WINDOW_MS, true, ), None);
    // after the window, but the sink still has audio: no advance
    assert_eq!(c.tick(103_000, false), None);
    // after the window with a drained sink: the next track is offered
    assert_eq!(c.tick(103_000, true), Some("b.mp3".to_string()));
    // a load failure is silent; the next due tick advances further
    assert_eq!(c.tick(103_500, true), None); // ran off the end, cursor reset
    assert_eq!(c.tick(104_000, true), Some("a.mp3".to_string()));
}

#[test]
fn tick_does_nothing_when_stopped_or_paused() {
    let mut c = fresh_core();
    add_files(&mut c, &["a.mp3", "b.mp3"], 100_000);
    // stopped player: never advances
    assert_eq!(c.tick(200_000, true), None);
    if let Action::TryLoad { path, .. } = c.handle_command(Command::Play { path: None }, 200_000) {
        c.load_succeeded(path, 0, 200_000);
    } else {
        panic!("expected TryLoad");
    }
    c.handle_command(Command::Pause, 200_100);
    assert_eq!(c.tick(300_000, true), None);
}

#[test]
fn manual_commands_restamp_the_debounce_clock() {
    let mut c = fresh_core();
    add_files(&mut c, &["a.mp3", "b.mp3"], 100_000);
    if let Action::TryLoad { path, .. } = c.handle_command(Command::Play { path: None }, 150_000) {
        c.load_succeeded(path, 0, 150_000);
    } else {
        panic!("expected TryLoad");
    }
    assert_eq!(c.last_manual_ms, 150_000);
    // a non-manual command leaves the stamp alone
    c.handle_command(Command::GetStatus, 151_000);
    assert_eq!(c.last_manual_ms, 150_000);
    // Stop is manual
    c.handle_command(Command::Stop, 152_000);
    assert_eq!(c.last_manual_ms, 152_000);
}

#[test]
fn fresh_core_backdates_the_manual_stamp() {
    let c = DaemonCore::new(100_000);
    assert_eq!(c.last_manual_ms, 90_000);
    let c = DaemonCore::new(5_000);
    assert_eq!(c.last_manual_ms, 0);
}

#[test]
fn status_snapshot_is_complete() {
    let mut c = fresh_core();
    add_files(&mut c, &["a.mp3", "b.mp3"], 100_000);
    if let Action::TryLoad { path, .. } = c.handle_command(Command::Play { path: None }, 100_000) {
        c.load_succeeded(path, 240_000, 100_000);
    } else {
        panic!("expected TryLoad");
    }
    c.handle_command(Command::SetVolume { level: 30 }, 100_000);
    let r = c.handle_command(Command::GetStatus, 101_000);
    match r {
        Action::Reply(Response::Status(st)) => {
            assert_eq!(st.state, PlaybackState::Playing);
            assert_eq!(st.current_track, Some("a.mp3".to_string()));
            assert_eq!(st.position_ms, 1000);
            assert_eq!(st.duration_ms, 240_000);
            assert_eq!(st.volume, 30);
            assert_eq!(st.playlist_length, 2);
            assert_eq!(st.current_index, Some(0));
        }
        other => panic!("expected Status, got {:?}", other),
    }
}
