use vstd::prelude::*;

verus! {

/// Kind of a track as the playlist file names it.
#[derive(Clone, Copy, Debug, PartialEq, Eq, Structural)]
pub enum TrackType {
    Backing,
    Metronome,
}

/// One track entry of a playlist file.
pub struct ConfigTrack {
    pub track_type: TrackType,
    pub name: String,
    /// Beats per minute, for a metronome.
    pub tempo: Option<u16>,
    /// Time signature `N/M`, for a metronome.
    pub signature: Option<String>,
    /// Audio file, for a backing track.
    pub path: Option<String>,
    pub autostart: Option<bool>,
    /// Seconds to wait before a backing track sounds.
    pub delay: Option<u64>,
}

/// The sounds that every metronome of a playlist uses.
pub struct ConfigMetronome {
    pub accent: String,
    pub beat: String,
}

/// A playlist file: its tracks in performance order, and the metronome sounds.
pub struct Config {
    pub tracks: Vec<ConfigTrack>,
    pub metronome: Option<ConfigMetronome>,
}

} // verus!
