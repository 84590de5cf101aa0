use ontrack::{
    Config, ConfigMetronome, ConfigTrack, Effect, Error, PlaybackState, Playlist, TrackType,
    Transport,
};

fn backing(name: &str, autostart: bool) -> ConfigTrack {
    ConfigTrack {
        track_type: TrackType::Backing,
        name: name.to_string(),
        tempo: None,
        signature: None,
        path: Some(format!("{}.ogg", name)),
        autostart: Some(autostart),
        delay: None,
    }
}

fn metronome(name: &str, tempo: u16, signature: &str, autostart: bool) -> ConfigTrack {
    ConfigTrack {
        track_type: TrackType::Metronome,
        name: name.to_string(),
        tempo: Some(tempo),
        signature: Some(signature.to_string()),
        path: None,
        autostart: Some(autostart),
        delay: None,
    }
}

fn sounds() -> Option<ConfigMetronome> {
    Some(ConfigMetronome { accent: "accent.wav".to_string(), beat: "beat.wav".to_string() })
}

fn three_backing() -> Playlist {
    Playlist::from_config(Config {
        tracks: vec![backing("a", false), backing("b", false), backing("c", false)],
        metronome: None,
    })
    .unwrap()
}

fn send(track: usize, command: Transport) -> Effect {
    Effect::Send { track, command }
}

fn announce(track: usize, state: PlaybackState) -> Effect {
    Effect::Announce { track, state }
}

#[test]
fn end_to_end_performance() {
    let mut p = Playlist::from_config(Config {
        tracks: vec![
            backing("Intro", false),
            metronome("Click", 120, "4/4", true),
            backing("Outro", false),
        ],
        metronome: sounds(),
    })
    .unwrap();
    assert_eq!(p.index(), 0);
    assert_eq!(p.active_track().get_state(), PlaybackState::Initial);
    assert_eq!(ontrack::state_text(p.active_track().get_state()), "Stopped");

    p.play_pause();
    assert_eq!(p.index(), 0);
    assert_eq!(p.active_track().get_state(), PlaybackState::Playing);

    let effects = p.finished(0);
    assert_eq!(p.index(), 1);
    assert_eq!(p.active_track().get_state(), PlaybackState::Playing);
    assert_eq!(p.track(0).get_state(), PlaybackState::Stopped);
    assert_eq!(
        effects,
        vec![
            send(0, Transport::Stop),
            announce(0, PlaybackState::Stopped),
            announce(1, PlaybackState::Initial),
            send(1, Transport::Play),
            announce(1, PlaybackState::Playing),
        ]
    );

    p.stop();
    assert_eq!(p.index(), 1);
    assert_eq!(p.active_track().get_state(), PlaybackState::Stopped);

    let effects = p.next();
    assert_eq!(p.index(), 2);
    assert_eq!(p.active_track().get_state(), PlaybackState::Initial);
    assert_eq!(ontrack::state_text(p.active_track().get_state()), "Stopped");
    assert!(!effects.iter().any(|e| matches!(e, Effect::Send { command: Transport::Play, .. })));
}

#[test]
fn next_stops_then_advances() {
    let mut p = three_backing();
    p.play_pause();
    let effects = p.next();
    assert_eq!(p.index(), 1);
    assert_eq!(p.track(0).get_state(), PlaybackState::Stopped);
    assert_eq!(
        effects,
        vec![
            send(0, Transport::Stop),
            announce(0, PlaybackState::Stopped),
            announce(1, PlaybackState::Initial),
        ]
    );
    p.next();
    assert_eq!(p.index(), 2);
}

#[test]
fn next_on_last_track_does_nothing() {
    let mut p = three_backing();
    p.next();
    p.next();
    assert_eq!(p.index(), 2);
    let effects = p.next();
    assert_eq!(p.index(), 2);
    assert!(effects.is_empty());
}

#[test]
fn previous_on_first_track_does_nothing() {
    let mut p = three_backing();
    let effects = p.previous();
    assert_eq!(p.index(), 0);
    assert!(effects.is_empty());
    assert_eq!(p.active_track().get_state(), PlaybackState::Initial);
}

#[test]
fn previous_goes_back_one() {
    let mut p = three_backing();
    p.next();
    p.play_pause();
    let effects = p.previous();
    assert_eq!(p.index(), 0);
    assert_eq!(p.track(1).get_state(), PlaybackState::Stopped);
    assert_eq!(
        effects,
        vec![
            send(1, Transport::Stop),
            announce(1, PlaybackState::Stopped),
            announce(0, PlaybackState::Stopped),
        ]
    );
}

#[test]
fn play_pause_cycles_backing() {
    let mut p = three_backing();
    p.stop();
    assert_eq!(p.active_track().get_state(), PlaybackState::Stopped);
    let e = p.play_pause();
    assert_eq!(e, vec![send(0, Transport::Play), announce(0, PlaybackState::Playing)]);
    let e = p.play_pause();
    assert_eq!(e, vec![send(0, Transport::Pause), announce(0, PlaybackState::Paused)]);
    assert_eq!(p.active_track().get_state(), PlaybackState::Paused);
    let e = p.play_pause();
    assert_eq!(e, vec![send(0, Transport::Play), announce(0, PlaybackState::Playing)]);
}

#[test]
fn metronome_pause_is_stop() {
    let mut p = Playlist::from_config(Config {
        tracks: vec![metronome("m", 90, "3/4", false)],
        metronome: sounds(),
    })
    .unwrap();
    p.play_pause();
    let e = p.play_pause();
    assert_eq!(e, vec![send(0, Transport::Pause), announce(0, PlaybackState::Stopped)]);
    assert_eq!(p.active_track().get_state(), PlaybackState::Stopped);
}

#[test]
fn finished_without_autostart_stays() {
    let mut p = three_backing();
    p.play_pause();
    let e = p.finished(0);
    assert_eq!(p.index(), 0);
    assert_eq!(p.active_track().get_state(), PlaybackState::Stopped);
    assert!(e.is_empty());
}

#[test]
fn finished_on_last_track_stays() {
    let mut p = Playlist::from_config(Config {
        tracks: vec![backing("a", false), backing("b", true)],
        metronome: None,
    })
    .unwrap();
    p.next();
    p.play_pause();
    let e = p.finished(1);
    assert_eq!(p.index(), 1);
    assert_eq!(p.active_track().get_state(), PlaybackState::Stopped);
    assert!(e.is_empty());
}

#[test]
fn stale_finish_is_ignored() {
    let mut p = Playlist::from_config(Config {
        tracks: vec![backing("a", false), backing("b", true), backing("c", true)],
        metronome: None,
    })
    .unwrap();
    p.next();
    p.play_pause();
    let e = p.finished(0);
    assert!(e.is_empty());
    assert_eq!(p.index(), 1);
    assert_eq!(p.active_track().get_state(), PlaybackState::Playing);
}

#[test]
fn track_labels() {
    let mut b = backing("Song", false);
    b.path = Some("songs/intro.ogg".to_string());
    let p = Playlist::from_config(Config {
        tracks: vec![b, metronome("Click", 120, "4/4", false), metronome("Slow", 7, "3/4", false)],
        metronome: sounds(),
    })
    .unwrap();
    assert_eq!(p.track(0).label(), "Backing track - songs/intro.ogg");
    assert_eq!(p.track(1).label(), "Metronome at 120bpm in 4/4");
    assert_eq!(p.track(2).label(), "Metronome at 7bpm in 3/4");
}

#[test]
fn from_config_keeps_order_and_fields() {
    let mut b = backing("Song", true);
    b.delay = Some(3);
    let p = Playlist::from_config(Config {
        tracks: vec![b, metronome("Click", 100, "6/8", false)],
        metronome: sounds(),
    })
    .unwrap();
    assert_eq!(p.len(), 2);
    assert_eq!(p.track(0).name(), "Song");
    assert_eq!(p.track(0).kind(), TrackType::Backing);
    assert!(p.track(0).autostart());
    match p.track(0) {
        ontrack::Track::Backing(b) => {
            assert_eq!(b.path(), "Song.ogg");
            assert_eq!(b.delay(), 3);
        },
        _ => panic!("expected a backing track"),
    }
    match p.track(1) {
        ontrack::Track::Metronome(m) => {
            assert_eq!(m.name(), "Click");
            assert_eq!(m.tempo(), 100);
            assert_eq!(m.signature(), "6/8");
            assert_eq!(m.beats_per_bar(), 6);
            assert!(!m.autostart());
        },
        _ => panic!("expected a metronome"),
    }
}

#[test]
fn autostart_defaults_to_false() {
    let mut b = backing("x", false);
    b.autostart = None;
    let p = Playlist::from_config(Config { tracks: vec![b], metronome: None }).unwrap();
    assert!(!p.track(0).autostart());
}

#[test]
fn from_config_errors() {
    let empty = Playlist::from_config(Config { tracks: vec![], metronome: None });
    assert_eq!(empty.err(), Some(Error::NoTracks));

    let mut b = backing("x", false);
    b.path = None;
    let r = Playlist::from_config(Config { tracks: vec![b], metronome: None });
    assert_eq!(r.err(), Some(Error::MissingPath));

    let mut m = metronome("m", 120, "4/4", false);
    m.tempo = None;
    let r = Playlist::from_config(Config { tracks: vec![m], metronome: sounds() });
    assert_eq!(r.err(), Some(Error::MissingTempo));

    let mut m = metronome("m", 120, "4/4", false);
    m.signature = None;
    let r = Playlist::from_config(Config { tracks: vec![m], metronome: sounds() });
    assert_eq!(r.err(), Some(Error::MissingSignature));

    let r = Playlist::from_config(Config {
        tracks: vec![metronome("m", 120, "4/4", false)],
        metronome: None,
    });
    assert_eq!(r.err(), Some(Error::MissingMetronomeSounds));

    let r = Playlist::from_config(Config {
        tracks: vec![metronome("m", 120, "four", false)],
        metronome: sounds(),
    });
    assert_eq!(r.err(), Some(Error::InvalidSignature));
}

#[test]
fn first_bad_entry_decides_error() {
    let mut b = backing("x", false);
    b.path = None;
    let r = Playlist::from_config(Config {
        tracks: vec![backing("ok", false), metronome("m", 120, "4/4", false), b],
        metronome: None,
    });
    assert_eq!(r.err(), Some(Error::MissingMetronomeSounds));
}
