use vstd::prelude::*;
use crate::model::{App, LoopMode, SEEK_STEP_MICROS, VOLUME_FULL, VOLUME_STEP};

verus! {

/// A control command to send to the selected player. Failures of the send
/// are ignored and nothing is retried.
#[derive(Clone, Copy, Debug, PartialEq, Eq, Structural)]
pub enum Command {
    PlayPause,
    Next,
    Previous,
    /// Ten-thousandths of full volume.
    SetVolume(u64),
    /// Microseconds.
    SeekForward(u64),
    /// Microseconds.
    SeekBackward(u64),
    SetLoop(LoopMode),
    SetShuffle(bool),
}

/// The volume one step up from `v`, clamped to full volume.
pub open spec fn raised(v: u64) -> u64 {
    if v + VOLUME_STEP >= VOLUME_FULL {
        VOLUME_FULL
    } else {
        (v + VOLUME_STEP) as u64
    }
}

/// The volume one step down from `v`, clamped to silence and to full volume.
pub open spec fn lowered(v: u64) -> u64 {
    if v <= VOLUME_STEP {
        0
    } else if v - VOLUME_STEP >= VOLUME_FULL {
        VOLUME_FULL
    } else {
        (v - VOLUME_STEP) as u64
    }
}

/// The loop mode that follows `m` in the cycle Off, Track, Playlist; a player
/// without loop control stays so.
pub open spec fn following_loop(m: LoopMode) -> LoopMode {
    match m {
        LoopMode::Off => LoopMode::Track,
        LoopMode::Track => LoopMode::Playlist,
        LoopMode::Playlist => LoopMode::Off,
        LoopMode::Unsupported => LoopMode::Unsupported,
    }
}

/// The volume one step up from `v`.
pub fn volume_raised(v: u64) -> (r: u64)
    ensures
        r == raised(v),
{
    if v >= VOLUME_FULL - VOLUME_STEP {
        VOLUME_FULL
    } else {
        v + VOLUME_STEP
    }
}

/// The volume one step down from `v`.
pub fn volume_lowered(v: u64) -> (r: u64)
    ensures
        r == lowered(v),
{
    if v <= VOLUME_STEP {
        0
    } else if v - VOLUME_STEP >= VOLUME_FULL {
        VOLUME_FULL
    } else {
        v - VOLUME_STEP
    }
}

/// The loop mode that follows `m`.
pub fn next_loop_mode(m: LoopMode) -> (r: LoopMode)
    ensures
        r == following_loop(m),
{
    match m {
        LoopMode::Off => LoopMode::Track,
        LoopMode::Track => LoopMode::Playlist,
        LoopMode::Playlist => LoopMode::Off,
        LoopMode::Unsupported => LoopMode::Unsupported,
    }
}

impl App {
    /// `c` when a player is selected, else nothing to send.
    pub open spec fn when_selected(&self, c: Command) -> Option<Command> {
        if self@.player_names.len() > 0 {
            Some(c)
        } else {
            None
        }
    }

    fn for_selected(&self, c: Command) -> (r: Option<Command>)
        ensures
            r == self.when_selected(c),
    {
        if self.player_names.len() > 0 {
            Some(c)
        } else {
            None
        }
    }

    pub fn toggle_play_pause(&self) -> (r: Option<Command>)
        ensures
            r == self.when_selected(Command::PlayPause),
    {
        self.for_selected(Command::PlayPause)
    }

    pub fn next_track(&self) -> (r: Option<Command>)
        ensures
            r == self.when_selected(Command::Next),
    {
        self.for_selected(Command::Next)
    }

    pub fn prev_track(&self) -> (r: Option<Command>)
        ensures
            r == self.when_selected(Command::Previous),
    {
        self.for_selected(Command::Previous)
    }

    /// Sets the volume one step above the displayed one, at most full volume.
    pub fn volume_up(&self) -> (r: Option<Command>)
        ensures
            r == self.when_selected(Command::SetVolume(raised(self.volume))),
    {
        self.for_selected(Command::SetVolume(volume_raised(self.volume)))
    }

    /// Sets the volume one step below the displayed one, at least silence.
    pub fn volume_down(&self) -> (r: Option<Command>)
        ensures
            r == self.when_selected(Command::SetVolume(lowered(self.volume))),
    {
        self.for_selected(Command::SetVolume(volume_lowered(self.volume)))
    }

    pub fn seek_forward(&self) -> (r: Option<Command>)
        ensures
            r == self.when_selected(Command::SeekForward(SEEK_STEP_MICROS)),
    {
        self.for_selected(Command::SeekForward(SEEK_STEP_MICROS))
    }

    pub fn seek_backward(&self) -> (r: Option<Command>)
        ensures
            r == self.when_selected(Command::SeekBackward(SEEK_STEP_MICROS)),
    {
        self.for_selected(Command::SeekBackward(SEEK_STEP_MICROS))
    }

    /// Advances the loop mode read from the player just now (`None` where
    /// that read failed); nothing is sent when it could not be read.
    pub fn cycle_loop(&self, current: Option<LoopMode>) -> (r: Option<Command>)
        ensures
            r == match current {
                Some(m) => if m == LoopMode::Unsupported {
                    None
                } else {
                    self.when_selected(Command::SetLoop(following_loop(m)))
                },
                None => None,
            },
    {
        match current {
            Some(m) => if m == LoopMode::Unsupported {
                None
            } else {
                self.for_selected(Command::SetLoop(next_loop_mode(m)))
            },
            None => None,
        }
    }

    /// Asks for the opposite of the displayed shuffle setting.
    pub fn toggle_shuffle(&self) -> (r: Option<Command>)
        ensures
            r == self.when_selected(Command::SetShuffle(!self.shuffle)),
    {
        self.for_selected(Command::SetShuffle(!self.shuffle))
    }
}

} // verus!
