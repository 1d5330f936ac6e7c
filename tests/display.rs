use playerctl_tui::format::{
    loop_label, progress_label, progress_numerator, shuffle_label, status_icon, status_label,
    volume_bar_fill, volume_percent,
};
use playerctl_tui::{format_duration, LoopMode, PlaybackState};

#[test]
fn durations_format_as_minutes_and_seconds() {
    assert_eq!(format_duration(0), "0:00");
    assert_eq!(format_duration(5_000_000), "0:05");
    assert_eq!(format_duration(65_999_999), "1:05");
    assert_eq!(format_duration(600_000_000), "10:00");
    assert_eq!(format_duration(3_725_000_000), "62:05");
}

#[test]
fn progress_label_shows_both_durations() {
    assert_eq!(progress_label(42_000_000, 180_000_000), " 0:42 / 3:00 ");
}

#[test]
fn progress_is_held_to_length() {
    assert_eq!(progress_numerator(10, 0), 0);
    assert_eq!(progress_numerator(10, 20), 10);
    assert_eq!(progress_numerator(30, 20), 20);
}

#[test]
fn volume_percent_rounds_half_up() {
    assert_eq!(volume_percent(0), 0);
    assert_eq!(volume_percent(10_000), 100);
    assert_eq!(volume_percent(4_449), 44);
    assert_eq!(volume_percent(4_450), 45);
}

#[test]
fn volume_bar_fill_scales_and_clamps() {
    assert_eq!(volume_bar_fill(5_000, 10), 5);
    assert_eq!(volume_bar_fill(10_000, 40), 40);
    assert_eq!(volume_bar_fill(20_000, 40), 40);
    assert_eq!(volume_bar_fill(0, 40), 0);
    assert_eq!(volume_bar_fill(2_500, 6), 2);
    assert_eq!(volume_bar_fill(10_000, 0), 0);
}

#[test]
fn labels() {
    assert_eq!(status_label(PlaybackState::Playing), "Playing");
    assert_eq!(status_label(PlaybackState::Paused), "Paused");
    assert_eq!(status_label(PlaybackState::Stopped), "Stopped");
    assert_eq!(status_icon(PlaybackState::Playing), "\u{25b6}");
    assert_eq!(status_icon(PlaybackState::Paused), "\u{23f8}");
    assert_eq!(status_icon(PlaybackState::Stopped), "\u{25a0}");
    assert_eq!(loop_label(LoopMode::Off), "Off");
    assert_eq!(loop_label(LoopMode::Track), "Track");
    assert_eq!(loop_label(LoopMode::Playlist), "Playlist");
    assert_eq!(loop_label(LoopMode::Unsupported), "N/A");
    assert_eq!(shuffle_label(true), "On");
    assert_eq!(shuffle_label(false), "Off");
}
