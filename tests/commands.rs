use playerctl_tui::{
    intent_of, next_loop_mode, volume_lowered, volume_raised, App, Command, Intent, Key, LoopMode,
    SEEK_STEP_MICROS, VOLUME_FULL,
};

fn with_player() -> App {
    let mut app = App::new();
    app.refresh_players(Some(vec!["p".to_string()]));
    app
}

#[test]
fn no_player_no_command() {
    let app = App::new();
    assert_eq!(app.toggle_play_pause(), None);
    assert_eq!(app.next_track(), None);
    assert_eq!(app.prev_track(), None);
    assert_eq!(app.volume_up(), None);
    assert_eq!(app.volume_down(), None);
    assert_eq!(app.seek_forward(), None);
    assert_eq!(app.seek_backward(), None);
    assert_eq!(app.cycle_loop(Some(LoopMode::Off)), None);
    assert_eq!(app.toggle_shuffle(), None);
}

#[test]
fn pass_through_commands() {
    let app = with_player();
    assert_eq!(app.toggle_play_pause(), Some(Command::PlayPause));
    assert_eq!(app.next_track(), Some(Command::Next));
    assert_eq!(app.prev_track(), Some(Command::Previous));
    assert_eq!(app.seek_forward(), Some(Command::SeekForward(5_000_000)));
    assert_eq!(app.seek_backward(), Some(Command::SeekBackward(SEEK_STEP_MICROS)));
}

#[test]
fn volume_steps_and_clamps() {
    let mut app = with_player();
    app.volume = 5_000;
    assert_eq!(app.volume_up(), Some(Command::SetVolume(5_500)));
    assert_eq!(app.volume_down(), Some(Command::SetVolume(4_500)));
    app.volume = 9_800;
    assert_eq!(app.volume_up(), Some(Command::SetVolume(VOLUME_FULL)));
    app.volume = 300;
    assert_eq!(app.volume_down(), Some(Command::SetVolume(0)));
    app.volume = 15_000;
    assert_eq!(app.volume_down(), Some(Command::SetVolume(VOLUME_FULL)));
    app.volume = u64::MAX;
    assert_eq!(app.volume_up(), Some(Command::SetVolume(VOLUME_FULL)));
}

#[test]
fn repeated_volume_steps_stay_in_range() {
    for start in [0u64, 1, 499, 500, 9_999, 10_000, 12_345, u64::MAX] {
        let mut up = start;
        let mut down = start;
        for _ in 0..30 {
            up = volume_raised(up);
            down = volume_lowered(down);
            assert!(up <= VOLUME_FULL);
            assert!(down <= VOLUME_FULL);
        }
        assert_eq!(up, VOLUME_FULL);
        assert_eq!(down, 0);
    }
}

#[test]
fn loop_cycle_has_period_three() {
    for m in [LoopMode::Off, LoopMode::Track, LoopMode::Playlist] {
        let once = next_loop_mode(m);
        assert_ne!(once, m);
        assert_ne!(once, LoopMode::Unsupported);
        assert_eq!(next_loop_mode(next_loop_mode(once)), m);
    }
    assert_eq!(next_loop_mode(LoopMode::Off), LoopMode::Track);
    assert_eq!(next_loop_mode(LoopMode::Track), LoopMode::Playlist);
    assert_eq!(next_loop_mode(LoopMode::Playlist), LoopMode::Off);
}

#[test]
fn cycle_loop_uses_mode_read_now() {
    let mut app = with_player();
    app.loop_status = LoopMode::Playlist;
    assert_eq!(app.cycle_loop(Some(LoopMode::Off)), Some(Command::SetLoop(LoopMode::Track)));
    assert_eq!(app.cycle_loop(Some(LoopMode::Playlist)), Some(Command::SetLoop(LoopMode::Off)));
    assert_eq!(app.cycle_loop(None), None);
    assert_eq!(app.cycle_loop(Some(LoopMode::Unsupported)), None);
}

#[test]
fn shuffle_toggle_negates_snapshot() {
    let mut app = with_player();
    assert_eq!(app.toggle_shuffle(), Some(Command::SetShuffle(true)));
    app.shuffle = true;
    assert_eq!(app.toggle_shuffle(), Some(Command::SetShuffle(false)));
}

#[test]
fn key_bindings() {
    assert_eq!(intent_of(Key::Char('c'), true), Some(Intent::Quit));
    assert_eq!(intent_of(Key::Char('c'), false), None);
    assert_eq!(intent_of(Key::Char('q'), false), Some(Intent::Quit));
    assert_eq!(intent_of(Key::Esc, false), Some(Intent::Quit));
    assert_eq!(intent_of(Key::Char(' '), false), Some(Intent::TogglePlayPause));
    assert_eq!(intent_of(Key::Char('n'), false), Some(Intent::NextTrack));
    assert_eq!(intent_of(Key::Char('p'), false), Some(Intent::PrevTrack));
    assert_eq!(intent_of(Key::Char('+'), false), Some(Intent::VolumeUp));
    assert_eq!(intent_of(Key::Char('='), false), Some(Intent::VolumeUp));
    assert_eq!(intent_of(Key::Char('-'), false), Some(Intent::VolumeDown));
    assert_eq!(intent_of(Key::Left, false), Some(Intent::SeekBackward));
    assert_eq!(intent_of(Key::Right, false), Some(Intent::SeekForward));
    assert_eq!(intent_of(Key::Tab, false), Some(Intent::NextPlayer));
    assert_eq!(intent_of(Key::BackTab, false), Some(Intent::PrevPlayer));
    assert_eq!(intent_of(Key::Char('l'), false), Some(Intent::CycleLoop));
    assert_eq!(intent_of(Key::Char('s'), true), Some(Intent::ToggleShuffle));
    assert_eq!(intent_of(Key::Char('x'), false), None);
    assert_eq!(intent_of(Key::Other, false), None);
}
