use ontrack::{
    metronome_step, MetronomeAction, MetronomeEvent,
    backing_step, interval, parse_signature, remaining_sleep, state_text, BackingAction,
    BackingCommand, BackingEvent, BeatCounter, BeatSound, Metronome, PlaybackState,
};

#[test]
fn interval_at_120_bpm_is_half_a_second() {
    assert_eq!(interval(120), 500_000_000);
    let d = std::time::Duration::from_nanos(interval(120));
    assert!((d.as_secs_f64() - 0.5).abs() < 1e-9);
}

#[test]
fn interval_values() {
    assert_eq!(interval(60), 1_000_000_000);
    assert_eq!(interval(1), 60_000_000_000);
    assert_eq!(interval(7), 8_571_428_571);
    assert_eq!(interval(0), u64::MAX);
}

#[test]
fn accent_every_fourth_beat() {
    let mut c = BeatCounter::new(4);
    for k in 0..12u32 {
        let s = c.tick();
        if k % 4 == 0 {
            assert_eq!(s, BeatSound::Accent, "beat {}", k);
        } else {
            assert_eq!(s, BeatSound::Regular, "beat {}", k);
        }
    }
}

#[test]
fn single_beat_bar_always_accents() {
    let mut c = BeatCounter::new(1);
    for _ in 0..3 {
        assert_eq!(c.tick(), BeatSound::Accent);
        assert_eq!(c.beat(), 0);
    }
}

#[test]
fn sleep_corrects_drift() {
    assert_eq!(remaining_sleep(500, 120), 380);
    assert_eq!(remaining_sleep(500, 500), 0);
    assert_eq!(remaining_sleep(500, 700), 0);
}

#[test]
fn signatures() {
    assert_eq!(parse_signature("4/4"), Some((4, 4)));
    assert_eq!(parse_signature("6/8"), Some((6, 8)));
    assert_eq!(parse_signature("12/16"), Some((12, 16)));
    assert_eq!(parse_signature("255/1"), Some((255, 1)));
    assert_eq!(parse_signature("256/4"), None);
    assert_eq!(parse_signature("4"), None);
    assert_eq!(parse_signature("/4"), None);
    assert_eq!(parse_signature("4/"), None);
    assert_eq!(parse_signature("4/4/4"), None);
    assert_eq!(parse_signature("a/4"), None);
    assert_eq!(parse_signature(""), None);
}

#[test]
fn metronome_handle_states() {
    let mut m = Metronome::new("m", 120, "3/4", true).unwrap();
    assert_eq!(m.get_state(), PlaybackState::Initial);
    assert_eq!(m.beats_per_bar(), 3);
    m.play();
    assert_eq!(m.get_state(), PlaybackState::Playing);
    m.pause();
    assert_eq!(m.get_state(), PlaybackState::Stopped);
    assert!(Metronome::new("m", 120, "x", true).is_err());
}

#[test]
fn state_texts() {
    assert_eq!(state_text(PlaybackState::Initial), "Stopped");
    assert_eq!(state_text(PlaybackState::Playing), "Playing");
    assert_eq!(state_text(PlaybackState::Paused), "Paused");
    assert_eq!(state_text(PlaybackState::Stopped), "Stopped");
}

#[test]
fn backing_actor_reports_end_once() {
    let (started, action) = backing_step(false, BackingEvent::Command(BackingCommand::Play));
    assert!(started);
    assert_eq!(action, BackingAction::DelayThenPlay);
    let (started, action) = backing_step(started, BackingEvent::Timeout { playing: true });
    assert!(started);
    assert_eq!(action, BackingAction::Nothing);
    let (started, action) = backing_step(started, BackingEvent::Timeout { playing: false });
    assert!(!started);
    assert_eq!(action, BackingAction::ReportFinished);
    let (started, action) = backing_step(started, BackingEvent::Timeout { playing: false });
    assert!(!started);
    assert_eq!(action, BackingAction::Nothing);
}

#[test]
fn backing_actor_commands() {
    assert_eq!(
        backing_step(true, BackingEvent::Command(BackingCommand::Stop)),
        (false, BackingAction::StopAudio)
    );
    assert_eq!(
        backing_step(true, BackingEvent::Command(BackingCommand::Pause)),
        (false, BackingAction::PauseAudio)
    );
    assert_eq!(backing_step(true, BackingEvent::Closed), (true, BackingAction::Exit));
    let (started, action) = backing_step(true, BackingEvent::Command(BackingCommand::Pause));
    assert_eq!(
        backing_step(started, BackingEvent::Timeout { playing: false }),
        (false, BackingAction::Nothing)
    );
    assert_eq!(action, BackingAction::PauseAudio);
}

#[test]
fn metronome_signals() {
    assert_eq!(metronome_step(false, MetronomeEvent::Signal(true)), (true, MetronomeAction::StartBar));
    assert_eq!(metronome_step(false, MetronomeEvent::Signal(false)), (false, MetronomeAction::Wait));
    assert_eq!(metronome_step(false, MetronomeEvent::Closed), (false, MetronomeAction::Exit));
    assert_eq!(metronome_step(true, MetronomeEvent::Quiet), (true, MetronomeAction::Beat));
    assert_eq!(metronome_step(true, MetronomeEvent::Signal(false)), (false, MetronomeAction::Halt));
    assert_eq!(metronome_step(true, MetronomeEvent::Signal(true)), (false, MetronomeAction::Halt));
    assert_eq!(metronome_step(true, MetronomeEvent::Closed), (false, MetronomeAction::Exit));
}

#[test]
fn beats_do_not_drift() {
    let interval = interval(120);
    let mut total: u64 = 0;
    for elapsed in [3_000_000u64, 120_000_000, 0, 499_999_999] {
        total += elapsed + remaining_sleep(interval, elapsed);
    }
    assert_eq!(total, 4 * 500_000_000);
}
