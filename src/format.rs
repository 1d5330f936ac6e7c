use vstd::prelude::*;
use crate::model::{LoopMode, PlaybackState, VOLUME_FULL};

verus! {

/// Microseconds in one second.
pub const MICROS_PER_SECOND: u64 = 1000000;

/// The decimal digit character for `d < 10`.
pub open spec fn digit_char(d: nat) -> char {
    if d == 0 { '0' }
    else if d == 1 { '1' }
    else if d == 2 { '2' }
    else if d == 3 { '3' }
    else if d == 4 { '4' }
    else if d == 5 { '5' }
    else if d == 6 { '6' }
    else if d == 7 { '7' }
    else if d == 8 { '8' }
    else { '9' }
}

/// The decimal notation of `n`, without leading zeros.
pub open spec fn decimal(n: nat) -> Seq<char>
    decreases n,
{
    if n < 10 {
        seq![digit_char(n)]
    } else {
        decimal(n / 10) + seq![digit_char(n % 10)]
    }
}

/// `n < 100` in two digits, with a leading zero where needed.
pub open spec fn two_digits(n: nat) -> Seq<char> {
    seq![digit_char(n / 10), digit_char(n % 10)]
}

/// A duration given in microseconds as whole minutes, a colon and two digits
/// of seconds; fractions of a second are dropped.
pub open spec fn duration_text(micros: nat) -> Seq<char> {
    let secs = micros / (MICROS_PER_SECOND as nat);
    decimal(secs / 60) + seq![':'] + two_digits(secs % 60)
}

fn digit_text(d: u64) -> (r: &'static str)
    requires
        d < 10,
    ensures
        r@ == seq![digit_char(d as nat)],
{
    proof {
        reveal_strlit("0");
        reveal_strlit("1");
        reveal_strlit("2");
        reveal_strlit("3");
        reveal_strlit("4");
        reveal_strlit("5");
        reveal_strlit("6");
        reveal_strlit("7");
        reveal_strlit("8");
        reveal_strlit("9");
    }
    let r = if d == 0 { "0" }
    else if d == 1 { "1" }
    else if d == 2 { "2" }
    else if d == 3 { "3" }
    else if d == 4 { "4" }
    else if d == 5 { "5" }
    else if d == 6 { "6" }
    else if d == 7 { "7" }
    else if d == 8 { "8" }
    else { "9" };
    assert(r@ =~= seq![digit_char(d as nat)]);
    r
}

fn append_decimal(s: &mut String, n: u64)
    ensures
        final(s)@ == old(s)@ + decimal(n as nat),
    decreases n,
{
    if n >= 10 {
        append_decimal(s, n / 10);
    }
    s.append(digit_text(n % 10));
    assert(final(s)@ =~= old(s)@ + decimal(n as nat));
}

/// Formats a duration in microseconds as `M:SS`.
pub fn format_duration(micros: u64) -> (r: String)
    ensures
        r@ == duration_text(micros as nat),
{
    let secs = micros / MICROS_PER_SECOND;
    let mut r = String::new();
    append_decimal(&mut r, secs / 60);
    proof {
        reveal_strlit(":");
    }
    r.append(":");
    r.append(digit_text((secs % 60) / 10));
    r.append(digit_text((secs % 60) % 10));
    assert(r@ =~= duration_text(micros as nat));
    r
}

/// The progress label: position and length, each as `M:SS`, separated by a slash.
pub fn progress_label(position: u64, duration: u64) -> (r: String)
    ensures
        r@ == seq![' '] + duration_text(position as nat) + seq![' ', '/', ' ']
            + duration_text(duration as nat) + seq![' '],
{
    proof {
        reveal_strlit(" ");
        reveal_strlit(" / ");
    }
    let mut r = String::new();
    r.append(" ");
    let p = format_duration(position);
    r.append(p.as_str());
    r.append(" / ");
    let d = format_duration(duration);
    r.append(d.as_str());
    r.append(" ");
    assert(r@ =~= seq![' '] + duration_text(position as nat) + seq![' ', '/', ' ']
        + duration_text(duration as nat) + seq![' ']);
    r
}

/// How much of the track has played, as a numerator over `duration`: the
/// position, held to the track length; 0 for a track of no length.
pub fn progress_numerator(position: u64, duration: u64) -> (r: u64)
    ensures
        duration == 0 ==> r == 0,
        duration > 0 ==> r == (if position <= duration { position } else { duration }),
{
    if duration == 0 {
        0
    } else if position <= duration {
        position
    } else {
        duration
    }
}

/// The volume as a whole percentage, rounded half up.
pub fn volume_percent(volume: u64) -> (r: u64)
    ensures
        r == (volume as int + 50) / 100,
{
    let whole = volume / 100;
    if volume % 100 >= 50 {
        whole + 1
    } else {
        whole
    }
}

/// How many of `width` cells of the volume bar are filled: the volume, held
/// to full volume, as a share of the width, rounded half up.
pub fn volume_bar_fill(volume: u64, width: u16) -> (r: u16)
    ensures
        r == (width as int * (if volume <= VOLUME_FULL { volume as int } else { VOLUME_FULL as int })
            + (VOLUME_FULL / 2) as int) / (VOLUME_FULL as int),
        r <= width,
{
    let v: u64 = if volume <= VOLUME_FULL { volume } else { VOLUME_FULL };
    let w: u64 = width as u64;
    assert(w * v <= 65535 * 10000) by (nonlinear_arith)
        requires
            w <= 65535,
            v <= 10000,
    ;
    let filled = (w * v + VOLUME_FULL / 2) / VOLUME_FULL;
    assert(filled <= w) by (nonlinear_arith)
        requires
            filled == (w * v + 5000) / 10000,
            v <= 10000,
    ;
    filled as u16
}

/// The name shown for a playback state.
pub fn status_label(s: PlaybackState) -> (r: &'static str)
    ensures
        s == PlaybackState::Playing ==> r@ == seq!['P', 'l', 'a', 'y', 'i', 'n', 'g'],
        s == PlaybackState::Paused ==> r@ == seq!['P', 'a', 'u', 's', 'e', 'd'],
        s == PlaybackState::Stopped ==> r@ == seq!['S', 't', 'o', 'p', 'p', 'e', 'd'],
{
    proof {
        reveal_strlit("Playing");
        reveal_strlit("Paused");
        reveal_strlit("Stopped");
    }
    match s {
        PlaybackState::Playing => "Playing",
        PlaybackState::Paused => "Paused",
        PlaybackState::Stopped => "Stopped",
    }
}

/// The symbol shown beside the playback state: a triangle while playing, two
/// bars while paused, a square otherwise.
pub fn status_icon(s: PlaybackState) -> (r: &'static str)
    ensures
        s == PlaybackState::Playing ==> r@ == seq!['\u{25b6}'],
        s == PlaybackState::Paused ==> r@ == seq!['\u{23f8}'],
        s == PlaybackState::Stopped ==> r@ == seq!['\u{25a0}'],
{
    proof {
        reveal_strlit("\u{25b6}");
        reveal_strlit("\u{23f8}");
        reveal_strlit("\u{25a0}");
    }
    match s {
        PlaybackState::Playing => "\u{25b6}",
        PlaybackState::Paused => "\u{23f8}",
        PlaybackState::Stopped => "\u{25a0}",
    }
}

/// The name shown for a loop mode; `N/A` where the player has no loop control.
pub fn loop_label(m: LoopMode) -> (r: &'static str)
    ensures
        m == LoopMode::Off ==> r@ == seq!['O', 'f', 'f'],
        m == LoopMode::Track ==> r@ == seq!['T', 'r', 'a', 'c', 'k'],
        m == LoopMode::Playlist ==> r@ == seq!['P', 'l', 'a', 'y', 'l', 'i', 's', 't'],
        m == LoopMode::Unsupported ==> r@ == seq!['N', '/', 'A'],
{
    proof {
        reveal_strlit("Off");
        reveal_strlit("Track");
        reveal_strlit("Playlist");
        reveal_strlit("N/A");
    }
    match m {
        LoopMode::Off => "Off",
        LoopMode::Track => "Track",
        LoopMode::Playlist => "Playlist",
        LoopMode::Unsupported => "N/A",
    }
}

/// The name shown for the shuffle setting.
pub fn shuffle_label(on: bool) -> (r: &'static str)
    ensures
        on ==> r@ == seq!['O', 'n'],
        !on ==> r@ == seq!['O', 'f', 'f'],
{
    proof {
        reveal_strlit("On");
        reveal_strlit("Off");
    }
    if on {
        "On"
    } else {
        "Off"
    }
}

} // verus!
