use vstd::prelude::*;

verus! {

/// A key press, reduced to what the controls distinguish.
#[derive(Clone, Copy, Debug, PartialEq, Eq, Structural)]
pub enum Key {
    Char(char),
    Esc,
    Left,
    Right,
    Tab,
    BackTab,
    Other,
}

/// What the user asked for.
#[derive(Clone, Copy, Debug, PartialEq, Eq, Structural)]
pub enum Intent {
    Quit,
    TogglePlayPause,
    NextTrack,
    PrevTrack,
    VolumeUp,
    VolumeDown,
    SeekBackward,
    SeekForward,
    NextPlayer,
    PrevPlayer,
    CycleLoop,
    ToggleShuffle,
}

/// The intent bound to a key; `control_only` says that Control was the one
/// modifier held. Control-C quits; other keys do not depend on modifiers.
pub open spec fn binding(key: Key, control_only: bool) -> Option<Intent> {
    match key {
        Key::Char(c) => if c == 'c' && control_only {
            Some(Intent::Quit)
        } else if c == 'q' {
            Some(Intent::Quit)
        } else if c == ' ' {
            Some(Intent::TogglePlayPause)
        } else if c == 'n' {
            Some(Intent::NextTrack)
        } else if c == 'p' {
            Some(Intent::PrevTrack)
        } else if c == '+' || c == '=' {
            Some(Intent::VolumeUp)
        } else if c == '-' {
            Some(Intent::VolumeDown)
        } else if c == 'l' {
            Some(Intent::CycleLoop)
        } else if c == 's' {
            Some(Intent::ToggleShuffle)
        } else {
            None
        },
        Key::Esc => Some(Intent::Quit),
        Key::Left => Some(Intent::SeekBackward),
        Key::Right => Some(Intent::SeekForward),
        Key::Tab => Some(Intent::NextPlayer),
        Key::BackTab => Some(Intent::PrevPlayer),
        Key::Other => None,
    }
}

/// The intent bound to a key press, if any.
pub fn intent_of(key: Key, control_only: bool) -> (r: Option<Intent>)
    ensures
        r == binding(key, control_only),
{
    match key {
        Key::Char(c) => if c == 'c' && control_only {
            Some(Intent::Quit)
        } else if c == 'q' {
            Some(Intent::Quit)
        } else if c == ' ' {
            Some(Intent::TogglePlayPause)
        } else if c == 'n' {
            Some(Intent::NextTrack)
        } else if c == 'p' {
            Some(Intent::PrevTrack)
        } else if c == '+' || c == '=' {
            Some(Intent::VolumeUp)
        } else if c == '-' {
            Some(Intent::VolumeDown)
        } else if c == 'l' {
            Some(Intent::CycleLoop)
        } else if c == 's' {
            Some(Intent::ToggleShuffle)
        } else {
            None
        },
        Key::Esc => Some(Intent::Quit),
        Key::Left => Some(Intent::SeekBackward),
        Key::Right => Some(Intent::SeekForward),
        Key::Tab => Some(Intent::NextPlayer),
        Key::BackTab => Some(Intent::PrevPlayer),
        Key::Other => None,
    }
}

} // verus!
