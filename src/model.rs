use vstd::prelude::*;

verus! {

/// Volume is kept in ten-thousandths: `VOLUME_FULL` stands for 1.0.
pub const VOLUME_FULL: u64 = 10000;

/// One volume step, 0.05 of full volume.
pub const VOLUME_STEP: u64 = 500;

/// Relative seek distance in microseconds (five seconds).
pub const SEEK_STEP_MICROS: u64 = 5000000;

/// The player list is enumerated again on every tick that is a multiple of this.
pub const RESCAN_PERIOD: u64 = 20;

#[derive(Clone, Copy, Debug, PartialEq, Eq, Structural)]
pub enum PlaybackState {
    Playing,
    Paused,
    Stopped,
}

#[derive(Clone, Copy, Debug, PartialEq, Eq, Structural)]
pub enum LoopMode {
    Off,
    Track,
    Playlist,
    /// The player does not expose a loop control.
    Unsupported,
}

/// Track metadata as read from a player; a field is `None` when the player
/// did not report it.
#[derive(Debug)]
pub struct TrackMetadata {
    pub title: Option<String>,
    pub artists: Option<Vec<String>>,
    pub album: Option<String>,
    /// Track length in microseconds.
    pub length: Option<u64>,
}

/// The outcome of querying each field of the selected player; `None` where
/// that query failed.
#[derive(Debug)]
pub struct PlayerReading {
    pub metadata: Option<TrackMetadata>,
    /// Playback position in microseconds.
    pub position: Option<u64>,
    pub status: Option<PlaybackState>,
    /// Volume in ten-thousandths of full volume.
    pub volume: Option<u64>,
    pub loop_status: Option<LoopMode>,
    pub shuffle: Option<bool>,
}

/// The display snapshot.
pub struct App {
    pub running: bool,
    pub player_names: Vec<String>,
    pub selected_player: usize,
    pub title: String,
    pub artist: String,
    pub album: String,
    /// Microseconds.
    pub position: u64,
    /// Microseconds.
    pub duration: u64,
    pub playback_status: PlaybackState,
    /// Ten-thousandths of full volume.
    pub volume: u64,
    pub loop_status: LoopMode,
    pub shuffle: bool,
    pub tick_count: u64,
}

/// The mathematical model of [`App`].
pub struct AppView {
    pub running: bool,
    pub player_names: Seq<Seq<char>>,
    pub selected_player: int,
    pub title: Seq<char>,
    pub artist: Seq<char>,
    pub album: Seq<char>,
    pub position: u64,
    pub duration: u64,
    pub playback_status: PlaybackState,
    pub volume: u64,
    pub loop_status: LoopMode,
    pub shuffle: bool,
    pub tick_count: u64,
}

/// The texts of a sequence of strings.
pub open spec fn texts(v: Seq<String>) -> Seq<Seq<char>> {
    v.map_values(|s: String| s@)
}

impl View for App {
    type V = AppView;

    open spec fn view(&self) -> AppView {
        AppView {
            running: self.running,
            player_names: texts(self.player_names@),
            selected_player: self.selected_player as int,
            title: self.title@,
            artist: self.artist@,
            album: self.album@,
            position: self.position,
            duration: self.duration,
            playback_status: self.playback_status,
            volume: self.volume,
            loop_status: self.loop_status,
            shuffle: self.shuffle,
            tick_count: self.tick_count,
        }
    }
}

impl AppView {
    /// The selection points into the player list, and is 0 when the list is empty.
    pub open spec fn wf(self) -> bool {
        if self.player_names.len() == 0 {
            self.selected_player == 0
        } else {
            0 <= self.selected_player < self.player_names.len()
        }
    }

    /// Every track and playback field holds its default.
    pub open spec fn has_defaults(self) -> bool {
        &&& self.title.len() == 0
        &&& self.artist.len() == 0
        &&& self.album.len() == 0
        &&& self.position == 0
        &&& self.duration == 0
        &&& self.playback_status == PlaybackState::Stopped
        &&& self.volume == 0
        &&& self.loop_status == LoopMode::Unsupported
        &&& !self.shuffle
    }

    /// The snapshot with every track and playback field reset to its default.
    pub open spec fn cleared(self) -> AppView {
        AppView {
            title: Seq::empty(),
            artist: Seq::empty(),
            album: Seq::empty(),
            position: 0,
            duration: 0,
            playback_status: PlaybackState::Stopped,
            volume: 0,
            loop_status: LoopMode::Unsupported,
            shuffle: false,
            ..self
        }
    }

    /// The snapshot at process start.
    pub open spec fn initial() -> AppView {
        AppView {
            running: true,
            player_names: Seq::empty(),
            selected_player: 0,
            title: Seq::empty(),
            artist: Seq::empty(),
            album: Seq::empty(),
            position: 0,
            duration: 0,
            playback_status: PlaybackState::Stopped,
            volume: 0,
            loop_status: LoopMode::Unsupported,
            shuffle: false,
            tick_count: 0,
        }
    }
}

impl App {
    /// An empty snapshot: no players known, every field at its default.
    pub fn new() -> (r: App)
        ensures
            r@ == AppView::initial(),
            r@.wf(),
            r@.has_defaults(),
    {
        let r = App {
            running: true,
            player_names: Vec::new(),
            selected_player: 0,
            title: String::new(),
            artist: String::new(),
            album: String::new(),
            position: 0,
            duration: 0,
            playback_status: PlaybackState::Stopped,
            volume: 0,
            loop_status: LoopMode::Unsupported,
            shuffle: false,
            tick_count: 0,
        };
        assert(r@.player_names =~= Seq::<Seq<char>>::empty());
        r
    }

    /// Whether the selection points into the player list, or is 0 with no
    /// players known.
    pub fn selection_valid(&self) -> (r: bool)
        ensures
            r == self@.wf(),
    {
        if self.player_names.len() == 0 {
            self.selected_player == 0
        } else {
            self.selected_player < self.player_names.len()
        }
    }
}

} // verus!
