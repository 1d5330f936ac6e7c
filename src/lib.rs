//! Player-state synchronisation and command dispatch for a terminal media
//! controller. The library holds the display snapshot and decides, from plain
//! values read off the media bus, what the snapshot becomes and which control
//! command is sent; talking to the bus and drawing the terminal happen outside.
pub mod dispatch;
pub mod format;
pub mod keys;
pub mod laws;
pub mod model;
pub mod players;
pub mod refresh;

pub use dispatch::{next_loop_mode, volume_lowered, volume_raised, Command};
pub use format::format_duration;
pub use keys::{intent_of, Intent, Key};
pub use model::{
    App, LoopMode, PlaybackState, PlayerReading, TrackMetadata, RESCAN_PERIOD, SEEK_STEP_MICROS,
    VOLUME_FULL, VOLUME_STEP,
};
