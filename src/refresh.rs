use vstd::prelude::*;
use crate::model::{texts, App, AppView, LoopMode, PlaybackState, PlayerReading, TrackMetadata};

verus! {

/// The separator placed between contributing artists.
pub open spec fn artist_separator() -> Seq<char> {
    seq![',', ' ']
}

/// The parts joined into one text, with the artist separator between them.
pub open spec fn joined(parts: Seq<Seq<char>>) -> Seq<char>
    decreases parts.len(),
{
    if parts.len() == 0 {
        Seq::empty()
    } else if parts.len() == 1 {
        parts[0]
    } else {
        joined(parts.drop_last()) + artist_separator() + parts.last()
    }
}

/// The text of an optional field; empty where it is missing.
pub open spec fn text_or_empty(s: Option<String>) -> Seq<char> {
    match s {
        Some(t) => t@,
        None => Seq::empty(),
    }
}

pub open spec fn title_of(m: Option<TrackMetadata>) -> Seq<char> {
    match m {
        Some(md) => text_or_empty(md.title),
        None => Seq::empty(),
    }
}

pub open spec fn artist_of(m: Option<TrackMetadata>) -> Seq<char> {
    match m {
        Some(md) => match md.artists {
            Some(a) => joined(texts(a@)),
            None => Seq::empty(),
        },
        None => Seq::empty(),
    }
}

pub open spec fn album_of(m: Option<TrackMetadata>) -> Seq<char> {
    match m {
        Some(md) => text_or_empty(md.album),
        None => Seq::empty(),
    }
}

pub open spec fn length_of(m: Option<TrackMetadata>) -> u64 {
    match m {
        Some(md) => match md.length {
            Some(l) => l,
            None => 0,
        },
        None => 0,
    }
}

pub open spec fn status_of(s: Option<PlaybackState>) -> PlaybackState {
    match s {
        Some(st) => st,
        None => PlaybackState::Stopped,
    }
}

pub open spec fn loop_of(l: Option<LoopMode>) -> LoopMode {
    match l {
        Some(m) => m,
        None => LoopMode::Unsupported,
    }
}

pub open spec fn number_or_zero(n: Option<u64>) -> u64 {
    match n {
        Some(v) => v,
        None => 0,
    }
}

impl AppView {
    /// Every track and playback field taken from `r`, each one falling back
    /// to its own default where its query failed.
    pub open spec fn with_reading(self, r: PlayerReading) -> AppView {
        AppView {
            title: title_of(r.metadata),
            artist: artist_of(r.metadata),
            album: album_of(r.metadata),
            duration: length_of(r.metadata),
            position: number_or_zero(r.position),
            playback_status: status_of(r.status),
            volume: number_or_zero(r.volume),
            loop_status: loop_of(r.loop_status),
            shuffle: match r.shuffle {
                Some(b) => b,
                None => false,
            },
            ..self
        }
    }

    /// The snapshot after a refresh. `reading` is `None` where the selected
    /// identity no longer resolves to a live player.
    pub open spec fn refreshed(self, reading: Option<PlayerReading>) -> AppView {
        match reading {
            Some(r) => if self.player_names.len() > 0 {
                self.with_reading(r)
            } else {
                self.cleared()
            },
            None => self.cleared(),
        }
    }
}

/// The artists as one display text, separated by a comma and a space.
pub fn join_artists(artists: &Vec<String>) -> (r: String)
    ensures
        r@ == joined(texts(artists@)),
{
    let mut r = String::new();
    let mut i: usize = 0;
    while i < artists.len()
        invariant
            i <= artists.len(),
            r@ == joined(texts(artists@).take(i as int)),
        decreases artists.len() - i,
    {
        let ghost prev = texts(artists@).take(i as int);
        let ghost next = texts(artists@).take(i as int + 1);
        assert(next.drop_last() =~= prev);
        assert(next.last() == artists@[i as int]@);
        proof {
            reveal_strlit(", ");
        }
        if i > 0 {
            r.append(", ");
        }
        r.append(artists[i].as_str());
        assert(r@ == joined(next)) by {
            if i > 0 {
                assert(", "@ =~= artist_separator());
            }
        }
        i = i + 1;
    }
    assert(texts(artists@).take(artists.len() as int) =~= texts(artists@));
    r
}

fn text_or_default(s: Option<String>) -> (r: String)
    ensures
        r@ == text_or_empty(s),
{
    match s {
        Some(t) => t,
        None => String::new(),
    }
}

impl App {
    /// Resets every track and playback field to its default.
    fn clear_track_info(&mut self)
        ensures
            final(self)@ == old(self)@.cleared(),
    {
        self.title = String::new();
        self.artist = String::new();
        self.album = String::new();
        self.position = 0;
        self.duration = 0;
        self.playback_status = PlaybackState::Stopped;
        self.volume = 0;
        self.loop_status = LoopMode::Unsupported;
        self.shuffle = false;
    }

    /// Replaces the track and playback fields with what was read from the
    /// selected player, field by field; with no player selected, or `None`
    /// where the selected identity did not resolve, every field is reset.
    pub fn refresh_state(&mut self, reading: Option<PlayerReading>)
        ensures
            final(self)@ == old(self)@.refreshed(reading),
    {
        let ghost r0 = reading;
        if self.player_names.len() == 0 {
            self.clear_track_info();
            return;
        }
        match reading {
            None => {
                self.clear_track_info();
            },
            Some(r) => {
                match r.metadata {
                    Some(m) => {
                        self.title = text_or_default(m.title);
                        self.artist = match m.artists {
                            Some(a) => join_artists(&a),
                            None => String::new(),
                        };
                        self.album = text_or_default(m.album);
                        self.duration = match m.length {
                            Some(l) => l,
                            None => 0,
                        };
                    },
                    None => {
                        self.title = String::new();
                        self.artist = String::new();
                        self.album = String::new();
                        self.duration = 0;
                    },
                }
                self.position = match r.position {
                    Some(p) => p,
                    None => 0,
                };
                self.playback_status = match r.status {
                    Some(s) => s,
                    None => PlaybackState::Stopped,
                };
                self.volume = match r.volume {
                    Some(v) => v,
                    None => 0,
                };
                self.loop_status = match r.loop_status {
                    Some(l) => l,
                    None => LoopMode::Unsupported,
                };
                self.shuffle = match r.shuffle {
                    Some(b) => b,
                    None => false,
                };
            },
        }
    }
}

} // verus!
